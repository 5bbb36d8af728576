//! Command-line flags: image references, outbound network rules and secrets.

use crate::error::{Error, ErrorView};
use crate::model::{empty_list, extend_from, push_to, Model};
use crate::secrets::{
    entry_at, env_ref, file_ref, in_key_order, lemma_with_entry_gives, ref_fault, validate_ref,
    with_entry, ResolutionScope, SecretMap, SecretMapView, SecretRef, SecretRefView,
};
use crate::text::{cat3, cat4, contains_char, cut, own, split_once, starts_with};
use vstd::prelude::*;

verus! {

/// Whether a word is more likely the reference of an image than a program: it
/// holds a colon, or a slash without being a path from the root or from here.
pub open spec fn looks_like_image(word: Seq<char>) -> bool {
    word.contains(':') || (word.contains('/') && !("/"@).is_prefix_of(word)
        && !("./"@).is_prefix_of(word) && !("../"@).is_prefix_of(word))
}

/// Tells whether a word is more likely the reference of an image than a program.
pub fn is_likely_image_ref(s: &str) -> (likely: bool)
    ensures
        likely == looks_like_image(s@),
{
    if contains_char(s, ':') {
        return true;
    }
    contains_char(s, '/') && !starts_with(s, "/") && !starts_with(s, "./") && !starts_with(
        s,
        "../",
    )
}

/// A host that a machine may reach, and the address ranges that its name stands
/// for, or the text of an error.
#[derive(Debug, PartialEq, Eq)]
pub struct ResolvedHost {
    pub host: String,
    pub cidrs: Result<Vec<String>, String>,
}

/// Mathematical model of a [`ResolvedHost`].
pub struct ResolvedHostView {
    pub host: Seq<char>,
    pub cidrs: Result<Seq<Seq<char>>, Seq<char>>,
}

impl Model for ResolvedHost {
    type V = ResolvedHostView;

    open spec fn model(&self) -> ResolvedHostView {
        ResolvedHostView {
            host: self.host.model(),
            cidrs: self.cidrs.model(),
        }
    }

    fn dup(&self) -> (copy: Self) {
        ResolvedHost {
            host: self.host.dup(),
            cidrs: self.cidrs.dup(),
        }
    }
}

/// What a machine may reach.
#[derive(Debug, PartialEq, Eq)]
pub struct Egress {
    pub cidrs: Vec<String>,
    pub net: bool,
    pub dns_filter_hosts: Option<Vec<String>>,
}

/// Mathematical model of a [`Egress`].
pub struct EgressView {
    pub cidrs: Seq<Seq<char>>,
    pub net: bool,
    pub dns_filter_hosts: Option<Seq<Seq<char>>>,
}

impl Model for Egress {
    type V = EgressView;

    open spec fn model(&self) -> EgressView {
        EgressView {
            cidrs: self.cidrs.model(),
            net: self.net.model(),
            dns_filter_hosts: self.dns_filter_hosts.model(),
        }
    }

    fn dup(&self) -> (copy: Self) {
        Egress {
            cidrs: self.cidrs.dup(),
            net: self.net.dup(),
            dns_filter_hosts: self.dns_filter_hosts.dup(),
        }
    }
}

/// The address ranges of hosts, one host after the other, or why the first that
/// could not be resolved was not.
pub open spec fn ranges_of(hosts: Seq<ResolvedHostView>) -> Result<Seq<Seq<char>>, Seq<char>>
    decreases hosts.len(),
{
    if hosts.len() == 0 {
        Ok(Seq::empty())
    } else {
        match ranges_of(hosts.drop_last()) {
            Err(reason) => Err(reason),
            Ok(ranges) => match hosts.last().cidrs {
                Err(reason) => Err(reason),
                Ok(more) => Ok(ranges + more),
            },
        }
    }
}

/// The address ranges of the host itself.
pub open spec fn local_ranges() -> Seq<Seq<char>> {
    seq!["127.0.0.0/8"@, "::1/128"@]
}

/// The names of hosts.
pub open spec fn host_names(hosts: Seq<ResolvedHostView>) -> Seq<Seq<char>> {
    Seq::new(hosts.len(), |i: int| hosts[i].host)
}

/// What a machine may reach: a flag that allows something also turns the
/// network on.
pub open spec fn egress_of(
    allow_cidr: Seq<Seq<char>>,
    hosts: Seq<ResolvedHostView>,
    outbound_localhost_only: bool,
    net: bool,
) -> Result<EgressView, ErrorView> {
    match ranges_of(hosts) {
        Err(reason) => Err(ErrorView::Config { operation: "--allow-host"@, reason }),
        Ok(ranges) => {
            let cidrs = allow_cidr + ranges + if outbound_localhost_only {
                local_ranges()
            } else {
                Seq::empty()
            };
            Ok(
                EgressView {
                    cidrs,
                    net: net || cidrs.len() > 0,
                    dns_filter_hosts: if hosts.len() == 0 {
                        None
                    } else {
                        Some(host_names(hosts))
                    },
                },
            )
        },
    }
}

proof fn lemma_ranges_fail(hosts: Seq<ResolvedHostView>, n: int)
    requires
        0 <= n <= hosts.len(),
        ranges_of(hosts.take(n)) is Err,
    ensures
        ranges_of(hosts) == ranges_of(hosts.take(n)),
    decreases hosts.len() - n,
{
    if n < hosts.len() {
        assert(hosts.take(n + 1).drop_last() =~= hosts.take(n));
        lemma_ranges_fail(hosts, n + 1);
    } else {
        assert(hosts.take(n) =~= hosts);
    }
}

/// Tells what a machine may reach.
pub fn resolve_egress_flags(
    allow_cidr: &Vec<String>,
    allow_host: &Vec<ResolvedHost>,
    outbound_localhost_only: bool,
    net: bool,
) -> (egress: Result<Egress, Error>)
    ensures
        egress.model() == egress_of(
            allow_cidr.model(),
            allow_host.model(),
            outbound_localhost_only,
            net,
        ),
{
    let ghost all = allow_host.model();
    let mut cidrs: Vec<String> = allow_cidr.dup();
    let mut names: Vec<String> = empty_list();
    let ghost mut ranges: Seq<Seq<char>> = Seq::empty();
    let mut i: usize = 0;
    assert(cidrs.model() =~= allow_cidr.model() + ranges);
    assert(host_names(all).take(0) =~= Seq::empty());
    while i < allow_host.len()
        invariant
            i <= allow_host.len(),
            allow_host.model() == all,
            ranges_of(all.take(i as int)) == Ok::<Seq<Seq<char>>, Seq<char>>(ranges),
            cidrs.model() == allow_cidr.model() + ranges,
            names.model() == host_names(all).take(i as int),
        decreases allow_host.len() - i,
    {
        assert(all.take(i + 1).drop_last() =~= all.take(i as int));
        assert(all.take(i + 1).last() == allow_host[i as int].model());
        match &allow_host[i].cidrs {
            Err(reason) => {
                proof {
                    lemma_ranges_fail(all, i + 1);
                }
                return Err(Error::config("--allow-host", reason.dup()));
            },
            Ok(more) => {
                extend_from(&mut cidrs, more);
                proof {
                    assert(allow_cidr.model() + ranges + more.model() =~= allow_cidr.model() + (
                    ranges + more.model()));
                    ranges = ranges + more.model();
                }
            },
        }
        push_to(&mut names, allow_host[i].host.dup());
        assert(host_names(all).take(i + 1) =~= host_names(all).take(i as int).push(
            host_names(all)[i as int],
        ));
        i += 1;
    }
    assert(all.take(all.len() as int) =~= all);
    assert(host_names(all).take(all.len() as int) =~= host_names(all));
    if outbound_localhost_only {
        push_to(&mut cidrs, own("127.0.0.0/8"));
        push_to(&mut cidrs, own("::1/128"));
        assert(cidrs.model() =~= allow_cidr.model() + ranges + local_ranges());
    } else {
        assert(cidrs.model() =~= allow_cidr.model() + ranges + Seq::<Seq<char>>::empty());
    }
    let net: bool = net || !cidrs.is_empty();
    let dns_filter_hosts: Option<Vec<String>> = if allow_host.is_empty() {
        None
    } else {
        Some(names)
    };
    Ok(Egress { cidrs, net, dns_filter_hosts })
}

/// Law: allowing an address range, a host with an address, or the host itself
/// turns the network on, and nothing else does but the network flag.
pub proof fn law_egress_flags_turn_network_on(
    allow_cidr: Seq<Seq<char>>,
    hosts: Seq<ResolvedHostView>,
    outbound_localhost_only: bool,
    net: bool,
)
    requires
        egress_of(allow_cidr, hosts, outbound_localhost_only, net) is Ok,
    ensures
        egress_of(allow_cidr, hosts, outbound_localhost_only, net)->Ok_0.net <==> net
            || allow_cidr.len() > 0 || outbound_localhost_only || ranges_of(hosts)->Ok_0.len() > 0,
{
}

/// The flag that gives a secret from a file or from the host's environment.
pub open spec fn secret_flag(file: bool) -> Seq<char> {
    if file {
        "--secret-file"@
    } else {
        "--secret-env"@
    }
}

/// The reference to a secret in a file or in the host's environment.
pub open spec fn secret_source(file: bool, value: Seq<char>) -> SecretRefView {
    if file {
        SecretRefView { from_env: None, from_file: Some(value) }
    } else {
        SecretRefView { from_env: Some(value), from_file: None }
    }
}

/// The name and the reference that a secret flag gives.
pub open spec fn cli_secret(file: bool, content: Seq<char>) -> Result<
    (Seq<char>, SecretRefView),
    ErrorView,
> {
    match cut(content, '=') {
        None => Err(
            ErrorView::Config {
                operation: secret_flag(file),
                reason: "expected KEY=VALUE, got '"@ + content + "'"@,
            },
        ),
        Some(parts) => if parts.0.len() == 0 {
            Err(
                ErrorView::Config {
                    operation: secret_flag(file),
                    reason: "empty secret name in '"@ + content + "'"@,
                },
            )
        } else {
            match ref_fault(secret_source(file, parts.1), ResolutionScope::TrustedLocal) {
                Some(fault) => Err(
                    ErrorView::Config {
                        operation: secret_flag(file),
                        reason: "secret '"@ + parts.0 + "': "@ + fault,
                    },
                ),
                None => Ok((parts.0, secret_source(file, parts.1))),
            }
        },
    }
}

/// The secrets that flags give, one after the other: a name may be given once.
pub open spec fn cli_secrets(flags: Seq<(bool, Seq<char>)>) -> Result<SecretMapView, ErrorView>
    decreases flags.len(),
{
    if flags.len() == 0 {
        Ok(Seq::empty())
    } else {
        match cli_secrets(flags.drop_last()) {
            Err(error) => Err(error),
            Ok(map) => match cli_secret(flags.last().0, flags.last().1) {
                Err(error) => Err(error),
                Ok(secret) => if entry_at(map, secret.0) is Some {
                    Err(
                        ErrorView::Config {
                            operation: secret_flag(flags.last().0),
                            reason: "secret '"@ + secret.0 + "' specified more than once"@,
                        },
                    )
                } else {
                    Ok(with_entry(map, secret.0, secret.1))
                },
            },
        }
    }
}

/// The secret flags of a command line: first those that name a variable, then
/// those that name a file.
pub open spec fn secret_flags(
    secret_env: Seq<Seq<char>>,
    secret_file: Seq<Seq<char>>,
) -> Seq<(bool, Seq<char>)> {
    Seq::new(secret_env.len(), |i: int| (false, secret_env[i])) + Seq::new(
        secret_file.len(),
        |i: int| (true, secret_file[i]),
    )
}

proof fn lemma_secrets_fail(flags: Seq<(bool, Seq<char>)>, n: int)
    requires
        0 <= n <= flags.len(),
        cli_secrets(flags.take(n)) is Err,
    ensures
        cli_secrets(flags) == cli_secrets(flags.take(n)),
    decreases flags.len() - n,
{
    if n < flags.len() {
        assert(flags.take(n + 1).drop_last() =~= flags.take(n));
        lemma_secrets_fail(flags, n + 1);
    } else {
        assert(flags.take(n) =~= flags);
    }
}

fn flag_name(file: bool) -> (flag: &'static str)
    ensures
        flag@ == secret_flag(file),
{
    if file {
        "--secret-file"
    } else {
        "--secret-env"
    }
}

fn read_secret(file: bool, content: &str) -> (secret: Result<(String, SecretRef), Error>)
    ensures
        secret.model() == cli_secret(file, content@),
{
    let flag: &str = flag_name(file);
    let parts: (String, String) = match split_once(content, '=') {
        None => {
            return Err(Error::config(flag, cat3("expected KEY=VALUE, got '", content, "'")));
        },
        Some(parts) => parts,
    };
    if parts.0.as_str().is_empty() {
        return Err(Error::config(flag, cat3("empty secret name in '", content, "'")));
    }
    let secret: SecretRef = if file {
        file_ref(parts.1.as_str())
    } else {
        env_ref(parts.1.as_str())
    };
    match validate_ref(&secret, ResolutionScope::TrustedLocal) {
        Err(fault) => Err(
            Error::config(flag, cat4("secret '", parts.0.as_str(), "': ", fault.as_str())),
        ),
        Ok(_) => Ok((parts.0, secret)),
    }
}

fn add_secret(
    map: &mut SecretMap,
    file: bool,
    content: &str,
    Ghost(flags): Ghost<Seq<(bool, Seq<char>)>>,
) -> (added: Result<(), Error>)
    requires
        cli_secrets(flags) == Ok::<SecretMapView, ErrorView>(old(map).model()),
    ensures
        added is Ok ==> cli_secrets(flags.push((file, content@))) == Ok::<SecretMapView, ErrorView>(
            final(map).model(),
        ),
        added is Err ==> cli_secrets(flags.push((file, content@))) == Err::<
            SecretMapView,
            ErrorView,
        >(added->Err_0.model()),
{
    assert(flags.push((file, content@)).drop_last() =~= flags);
    let secret: (String, SecretRef) = match read_secret(file, content) {
        Err(error) => {
            return Err(error);
        },
        Ok(secret) => secret,
    };
    let name: String = secret.0.dup();
    match map.insert(secret.0, secret.1) {
        Some(_) => Err(
            Error::config(
                flag_name(file),
                cat3("secret '", name.as_str(), "' specified more than once"),
            ),
        ),
        None => Ok(()),
    }
}

/// Reads the secret flags of a command line.
pub fn parse_cli_secret_refs(secret_env: &Vec<String>, secret_file: &Vec<String>) -> (refs: Result<
    SecretMap,
    Error,
>)
    ensures
        refs.model() == cli_secrets(secret_flags(secret_env.model(), secret_file.model())),
{
    let ghost all = secret_flags(secret_env.model(), secret_file.model());
    let mut map: SecretMap = SecretMap::new();
    let mut i: usize = 0;
    assert(all.take(0) =~= Seq::empty());
    while i < secret_env.len()
        invariant
            i <= secret_env.len(),
            all == secret_flags(secret_env.model(), secret_file.model()),
            cli_secrets(all.take(i as int)) == Ok::<SecretMapView, ErrorView>(map.model()),
        decreases secret_env.len() - i,
    {
        let ghost done = all.take(i as int);
        assert(all.take(i + 1) =~= done.push((false, secret_env[i as int]@)));
        if let Err(error) = add_secret(&mut map, false, secret_env[i].as_str(), Ghost(done)) {
            proof {
                lemma_secrets_fail(all, i + 1);
            }
            return Err(error);
        }
        i += 1;
    }
    let mut j: usize = 0;
    while j < secret_file.len()
        invariant
            j <= secret_file.len(),
            all == secret_flags(secret_env.model(), secret_file.model()),
            cli_secrets(all.take(secret_env.len() + j)) == Ok::<SecretMapView, ErrorView>(
                map.model(),
            ),
        decreases secret_file.len() - j,
    {
        let ghost done = all.take(secret_env.len() + j);
        assert(all.take(secret_env.len() + j + 1) =~= done.push((true, secret_file[j as int]@)));
        if let Err(error) = add_secret(&mut map, true, secret_file[j].as_str(), Ghost(done)) {
            proof {
                lemma_secrets_fail(all, secret_env.len() + j + 1);
            }
            return Err(error);
        }
        j += 1;
    }
    assert(all.take(all.len() as int) =~= all);
    Ok(map)
}

/// Law: where secret flags are accepted, each of them is, and its name gives the
/// secret that it names.
pub proof fn law_cli_secrets_are_kept(flags: Seq<(bool, Seq<char>)>, i: int)
    requires
        cli_secrets(flags) is Ok,
        0 <= i < flags.len(),
    ensures
        in_key_order(cli_secrets(flags)->Ok_0),
        cli_secret(flags[i].0, flags[i].1) is Ok,
        entry_at(cli_secrets(flags)->Ok_0, cli_secret(flags[i].0, flags[i].1)->Ok_0.0) == Some(
            cli_secret(flags[i].0, flags[i].1)->Ok_0.1,
        ),
    decreases flags.len(),
{
    let rest = flags.drop_last();
    let map = cli_secrets(rest)->Ok_0;
    let last = cli_secret(flags.last().0, flags.last().1)->Ok_0;
    if rest.len() > 0 {
        law_cli_secrets_are_kept(rest, if i < rest.len() {
            i
        } else {
            0
        });
    }
    lemma_with_entry_gives(map, last.0, last.1);
    if i < rest.len() {
        assert(rest[i] == flags[i]);
    }
}

/// Law: a name that two secret flags give is refused.
pub proof fn law_repeated_secret_is_refused(flags: Seq<(bool, Seq<char>)>, i: int, j: int)
    requires
        0 <= i < j < flags.len(),
        cli_secret(flags[i].0, flags[i].1) is Ok,
        cli_secret(flags[j].0, flags[j].1) is Ok,
        cli_secret(flags[i].0, flags[i].1)->Ok_0.0 == cli_secret(flags[j].0, flags[j].1)->Ok_0.0,
    ensures
        cli_secrets(flags) is Err,
    decreases flags.len(),
{
    if cli_secrets(flags) is Ok {
        let rest = flags.drop_last();
        if j < rest.len() {
            assert(rest[i] == flags[i] && rest[j] == flags[j]);
            law_repeated_secret_is_refused(rest, i, j);
        } else {
            assert(rest[i] == flags[i]);
            law_cli_secrets_are_kept(rest, i);
        }
    }
}

/// Law: the address ranges of hosts are those of each host, in the order of the hosts, and the first
/// host without an address is the one that is told of.
pub proof fn law_hosts_are_resolved_in_order(hosts: Seq<ResolvedHostView>, host: ResolvedHostView)
    ensures
        ranges_of(Seq::empty()) == Ok::<Seq<Seq<char>>, Seq<char>>(Seq::empty()),
        ranges_of(hosts.push(host)) is Ok <==> ranges_of(hosts) is Ok && host.cidrs is Ok,
        ranges_of(hosts) is Ok && host.cidrs is Ok ==> ranges_of(hosts.push(host))->Ok_0
            == ranges_of(hosts)->Ok_0 + host.cidrs->Ok_0,
        ranges_of(hosts) is Err ==> ranges_of(hosts.push(host)) == ranges_of(hosts),
        ranges_of(hosts) is Ok && host.cidrs is Err ==> ranges_of(hosts.push(host))->Err_0
            == host.cidrs->Err_0,
{
    assert(hosts.push(host).drop_last() =~= hosts);
}

/// Law: a machine may reach the ranges that were given, then those of the hosts, then those of this
/// computer where that was asked for, and nothing else; names are looked up only for the hosts that
/// were given, where any were.
pub proof fn law_egress_is_what_was_allowed(
    allow_cidr: Seq<Seq<char>>,
    hosts: Seq<ResolvedHostView>,
    outbound_localhost_only: bool,
    net: bool,
)
    ensures
        egress_of(allow_cidr, hosts, outbound_localhost_only, net) is Ok <==> ranges_of(hosts)
            is Ok,
        egress_of(allow_cidr, hosts, outbound_localhost_only, net) matches Err(error) ==> error
            is Config && error->Config_reason == ranges_of(hosts)->Err_0,
        egress_of(allow_cidr, hosts, outbound_localhost_only, net) matches Ok(egress) ==> {
            let own = allow_cidr.len() as int;
            let resolved = own + ranges_of(hosts)->Ok_0.len();
            &&& allow_cidr.is_prefix_of(egress.cidrs)
            &&& egress.cidrs.len() >= resolved && egress.cidrs.subrange(own, resolved) == ranges_of(
                hosts,
            )->Ok_0
            &&& outbound_localhost_only ==> egress.cidrs.skip(resolved) == seq![
                "127.0.0.0/8"@,
                "::1/128"@,
            ]
            &&& !outbound_localhost_only ==> egress.cidrs.len() == resolved
            &&& net ==> egress.net
            &&& egress.dns_filter_hosts is None <==> hosts.len() == 0
            &&& egress.dns_filter_hosts matches Some(names) ==> names.len() == hosts.len()
                && forall|i: int| 0 <= i < hosts.len() ==> #[trigger] names[i] == hosts[i].host
        },
{
    if let Ok(egress) = egress_of(allow_cidr, hosts, outbound_localhost_only, net) {
        let own = allow_cidr.len() as int;
        let resolved = own + ranges_of(hosts)->Ok_0.len();
        assert(egress.cidrs.take(own) =~= allow_cidr);
        assert(egress.cidrs.subrange(own, resolved) =~= ranges_of(hosts)->Ok_0);
        if outbound_localhost_only {
            assert(egress.cidrs.skip(resolved) =~= seq!["127.0.0.0/8"@, "::1/128"@]);
        }
    }
}

/// Law: a secret flag gives the name before its first equals sign and refers to what stands behind it,
/// a file or a variable as the flag says. It is refused without an equals sign, without a name, or
/// where such a reference is not acceptable, and the flag is told.
pub proof fn law_secret_flag_names_its_source(file: bool, content: Seq<char>)
    ensures
        cli_secret(file, content) is Ok ==> content.contains('='),
        cli_secret(file, content) matches Ok(secret) ==> {
            let value = if file {
                secret.1.from_file
            } else {
                secret.1.from_env
            };
            &&& value is Some && secret.0 + seq!['='] + value->0 == content
            &&& secret.0.len() > 0 && !secret.0.contains('=')
            &&& file ==> secret.1.from_env is None
            &&& !file ==> secret.1.from_file is None
            &&& ref_fault(secret.1, ResolutionScope::TrustedLocal) is None
        },
        forall|name: Seq<char>, value: Seq<char>|
            name.len() > 0 && !name.contains('=') && content == #[trigger] (name + seq!['='] + value)
                && ref_fault(
                SecretRefView {
                    from_env: if file {
                        None
                    } else {
                        Some(value)
                    },
                    from_file: if file {
                        Some(value)
                    } else {
                        None
                    },
                },
                ResolutionScope::TrustedLocal,
            ) is None ==> cli_secret(file, content) is Ok,
        cli_secret(file, content) matches Err(error) ==> error is Config
            && error->Config_operation == if file {
            "--secret-file"@
        } else {
            "--secret-env"@
        },
{
    crate::text::law_text_is_cut_at_the_first(content, '=');
    assert forall|name: Seq<char>, value: Seq<char>|
        name.len() > 0 && !name.contains('=') && content == #[trigger] (name + seq!['='] + value)
            && ref_fault(
            SecretRefView {
                from_env: if file {
                    None
                } else {
                    Some(value)
                },
                from_file: if file {
                    Some(value)
                } else {
                    None
                },
            },
            ResolutionScope::TrustedLocal,
        ) is None implies cli_secret(file, content) is Ok by {
        let at = name.len() as int;
        assert forall|i: int| 0 <= i < at implies content[i] != '=' by {
            assert(content[i] == name[i]);
            assert(name.contains(name[i]));
        }
        assert(content[at] == '=');
        crate::text::lemma_position_is(content, '=', at);
        assert(content.take(at) =~= name);
        assert(content.skip(at + 1) =~= value);
    }
}

/// Law: the secret flags of a command line are those that name a variable and then those that name a
/// file, each as it was given.
pub proof fn law_secret_flags_in_order(secret_env: Seq<Seq<char>>, secret_file: Seq<Seq<char>>)
    ensures
        secret_flags(secret_env, secret_file).len() == secret_env.len() + secret_file.len(),
        forall|i: int|
            0 <= i < secret_env.len() ==> #[trigger] secret_flags(secret_env, secret_file)[i] == (
                false,
                secret_env[i],
            ),
        forall|i: int|
            secret_env.len() <= i < secret_env.len() + secret_file.len()
                ==> #[trigger] secret_flags(secret_env, secret_file)[i] == (
                true,
                secret_file[i - secret_env.len()],
            ),
{
}

/// Law: a word with a colon looks like an image, a path from the root or from here does not unless it
/// has one, a word with neither a colon nor a slash does not, and any other word with a slash does.
pub proof fn law_words_that_look_like_images(word: Seq<char>)
    ensures
        word.contains(':') ==> looks_like_image(word),
        !word.contains(':') && !word.contains('/') ==> !looks_like_image(word),
        !word.contains(':') && word.len() > 0 && word[0] == '/' ==> !looks_like_image(word),
        !word.contains(':') && ("./"@).is_prefix_of(word) ==> !looks_like_image(word),
        !word.contains(':') && ("../"@).is_prefix_of(word) ==> !looks_like_image(word),
        word.contains('/') && word[0] != '/' && word[0] != '.' ==> looks_like_image(word),
{
    reveal_strlit("/");
    reveal_strlit("./");
    reveal_strlit("../");
    assert(("/"@).len() == 1 && ("/"@)[0] == '/');
    assert(("./"@).len() == 2 && ("./"@)[0] == '.');
    assert(("../"@).len() == 3 && ("../"@)[0] == '.');
    if word.len() > 0 && word[0] == '/' {
        assert(word.take(1) =~= "/"@);
    }
    if ("/"@).is_prefix_of(word) {
        assert(word.take(1)[0] == word[0]);
    }
    if ("./"@).is_prefix_of(word) {
        assert(word.take(2)[0] == word[0]);
    }
    if ("../"@).is_prefix_of(word) {
        assert(word.take(3)[0] == word[0]);
    }
}

} // verus!
