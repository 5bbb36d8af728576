//! Environment variables of commands and machines.

use crate::error::{Error, ErrorView};
use crate::model::{dup_first_some, empty_list, extend_from, first_some, push_to, Model};
use crate::secrets::{ref_fault, validate_ref, ResolutionScope, SecretMap, SecretMapView};
use crate::text::{cat4, same_text};
use crate::types::{ImageInfo, ImageInfoView, VmRecord, VmRecordView};
use vstd::prelude::*;

verus! {

/// Model of an environment: variables and their values, in order.
pub type EnvView = Seq<(Seq<char>, Seq<char>)>;

/// The environment without the variable `key`.
pub open spec fn without_key(env: EnvView, key: Seq<char>) -> EnvView {
    env.filter(|entry: (Seq<char>, Seq<char>)| entry.0 != key)
}

/// The environment with `key` set to `value`, as its last variable.
pub open spec fn with_variable(env: EnvView, key: Seq<char>, value: Seq<char>) -> EnvView {
    without_key(env, key).push((key, value))
}

/// The environment after every override in turn.
pub open spec fn overridden(env: EnvView, overrides: EnvView) -> EnvView
    decreases overrides.len(),
{
    if overrides.len() == 0 {
        env
    } else {
        with_variable(overridden(env, overrides.drop_last()), overrides.last().0, overrides.last().1)
    }
}

/// Drops a variable, and says whether it was there.
pub fn remove_variable(env: &mut Vec<(String, String)>, key: &str) -> (removed: bool)
    ensures
        final(env).model() == without_key(old(env).model(), key@),
        removed == (without_key(old(env).model(), key@).len() < old(env).model().len()),
{
    let ghost all = env.model();
    let mut kept: Vec<(String, String)> = empty_list();
    let mut i: usize = 0;
    let before: usize = env.len();
    while i < env.len()
        invariant
            i <= env.len(),
            env.model() == all,
            kept.model() == without_key(all.take(i as int), key@),
        decreases env.len() - i,
    {
        assert(all.take(i + 1).drop_last() =~= all.take(i as int));
        assert(all.take(i + 1).last() == env[i as int].model());
        reveal(Seq::filter);
        if !same_text(env[i].0.as_str(), key) {
            push_to(&mut kept, env[i].dup());
        }
        i += 1;
    }
    assert(all.take(all.len() as int) =~= all);
    *env = kept;
    env.len() < before
}

/// Sets a variable, which becomes the last one.
pub fn apply_env_override(env: &mut Vec<(String, String)>, key: String, value: String)
    ensures
        final(env).model() == with_variable(old(env).model(), key@, value@),
{
    remove_variable(env, key.as_str());
    push_to(env, (key, value));
}

/// Applies overrides to a copy of an environment.
pub fn merge_env_overrides(
    base_env: &Vec<(String, String)>,
    overrides: &Vec<(String, String)>,
) -> (env: Vec<(String, String)>)
    ensures
        env.model() == overridden(base_env.model(), overrides.model()),
{
    let mut env: Vec<(String, String)> = base_env.dup();
    let mut i: usize = 0;
    while i < overrides.len()
        invariant
            i <= overrides.len(),
            env.model() == overridden(base_env.model(), overrides.model().take(i as int)),
        decreases overrides.len() - i,
    {
        let ghost next = overrides.model().take(i + 1);
        assert(next.drop_last() =~= overrides.model().take(i as int));
        assert(next.last() == overrides[i as int].model());
        apply_env_override(&mut env, overrides[i].0.dup(), overrides[i].1.dup());
        i += 1;
    }
    assert(overrides.model().take(overrides.len() as int) =~= overrides.model());
    env
}

/// Environment, directory and user of a command in a container.
#[derive(Debug, PartialEq, Eq)]
pub struct ImageRuntimeDefaults {
    pub env: Vec<(String, String)>,
    pub workdir: Option<String>,
    pub user: Option<String>,
}

/// Mathematical model of a [`ImageRuntimeDefaults`].
pub struct ImageRuntimeDefaultsView {
    pub env: Seq<(Seq<char>, Seq<char>)>,
    pub workdir: Option<Seq<char>>,
    pub user: Option<Seq<char>>,
}

impl Model for ImageRuntimeDefaults {
    type V = ImageRuntimeDefaultsView;

    open spec fn model(&self) -> ImageRuntimeDefaultsView {
        ImageRuntimeDefaultsView {
            env: self.env.model(),
            workdir: self.workdir.model(),
            user: self.user.model(),
        }
    }

    fn dup(&self) -> (copy: Self) {
        ImageRuntimeDefaults {
            env: self.env.dup(),
            workdir: self.workdir.dup(),
            user: self.user.dup(),
        }
    }
}

/// The variables that an image sets. `parsed` holds each variable of the image
/// in turn, or nothing where the image holds no `KEY=VALUE`.
pub open spec fn image_variables(parsed: Seq<Option<(Seq<char>, Seq<char>)>>) -> EnvView
    decreases parsed.len(),
{
    if parsed.len() == 0 {
        Seq::empty()
    } else {
        let before = image_variables(parsed.drop_last());
        match parsed.last() {
            Some(variable) => with_variable(before, variable.0, variable.1),
            None => before,
        }
    }
}

/// What a command in a container starts with: the image's settings, which the
/// request overrides.
pub open spec fn runtime_defaults(
    image: Option<ImageInfoView>,
    parsed: Seq<Option<(Seq<char>, Seq<char>)>>,
    env: EnvView,
    workdir: Option<Seq<char>>,
    user: Option<Seq<char>>,
) -> ImageRuntimeDefaultsView {
    ImageRuntimeDefaultsView {
        env: overridden(
            if image is Some {
                image_variables(parsed)
            } else {
                Seq::empty()
            },
            env,
        ),
        workdir: if workdir is Some || image is None {
            workdir
        } else {
            image->0.workdir
        },
        user: if user is Some || image is None {
            user
        } else {
            image->0.user
        },
    }
}

/// Resolves environment, directory and user of a command in a container.
/// `parsed` holds the variables of the image, as the parser of `KEY=VALUE`
/// entries gave them.
pub fn resolve_image_runtime_defaults(
    image_info: &Option<ImageInfo>,
    parsed: &Vec<Option<(String, String)>>,
    env: &Vec<(String, String)>,
    explicit_workdir: &Option<String>,
    explicit_user: &Option<String>,
) -> (defaults: ImageRuntimeDefaults)
    ensures
        defaults.model() == runtime_defaults(
            image_info.model(),
            parsed.model(),
            env.model(),
            explicit_workdir.model(),
            explicit_user.model(),
        ),
{
    let mut resolved: Vec<(String, String)> = empty_list();
    match image_info {
        None => ImageRuntimeDefaults {
            env: merge_env_overrides(&resolved, env),
            workdir: explicit_workdir.dup(),
            user: explicit_user.dup(),
        },
        Some(info) => {
            let mut i: usize = 0;
            while i < parsed.len()
                invariant
                    i <= parsed.len(),
                    resolved.model() == image_variables(parsed.model().take(i as int)),
                decreases parsed.len() - i,
            {
                let ghost next = parsed.model().take(i + 1);
                assert(next.drop_last() =~= parsed.model().take(i as int));
                assert(next.last() == parsed[i as int].model());
                match &parsed[i] {
                    Some(variable) => {
                        apply_env_override(&mut resolved, variable.0.dup(), variable.1.dup());
                    },
                    None => {},
                }
                i += 1;
            }
            assert(parsed.model().take(parsed.len() as int) =~= parsed.model());
            ImageRuntimeDefaults {
                env: merge_env_overrides(&resolved, env),
                workdir: dup_first_some(explicit_workdir, &info.workdir),
                user: dup_first_some(explicit_user, &info.user),
            }
        },
    }
}

/// The first secret, in key order, whose reference is not acceptable, and why.
pub open spec fn first_ref_fault(
    refs: SecretMapView,
    scope: ResolutionScope,
) -> Option<(Seq<char>, Seq<char>)>
    decreases refs.len(),
{
    if refs.len() == 0 {
        None
    } else {
        match ref_fault(refs[0].1, scope) {
            Some(fault) => Some((refs[0].0, fault)),
            None => first_ref_fault(refs.skip(1), scope),
        }
    }
}

/// Finds the first secret whose reference is not acceptable.
pub fn find_ref_fault(refs: &SecretMap, scope: ResolutionScope) -> (fault: Option<(String, String)>)
    ensures
        fault.model() == first_ref_fault(refs.model(), scope),
{
    let mut i: usize = 0;
    assert(refs.model().skip(0) =~= refs.model());
    while i < refs.len()
        invariant
            i <= refs.model().len(),
            first_ref_fault(refs.model().skip(i as int), scope) == first_ref_fault(
                refs.model(),
                scope,
            ),
        decreases refs.model().len() - i,
    {
        let entry = refs.entry(i);
        assert(refs.model().skip(i as int).skip(1) =~= refs.model().skip(i + 1));
        assert(refs.model().skip(i as int)[0] == refs.model()[i as int]);
        match validate_ref(entry.1, scope) {
            Ok(_) => {},
            Err(fault) => {
                return Some((entry.0.dup(), fault));
            },
        }
        i += 1;
    }
    None
}

/// The error for a secret that may not be used.
pub open spec fn secret_error(
    operation: Seq<char>,
    fault: (Seq<char>, Seq<char>),
) -> ErrorView {
    ErrorView::Config { operation, reason: "secret '"@ + fault.0 + "': "@ + fault.1 }
}

/// What checking the secrets of a request gives.
pub open spec fn refs_checked(
    operation: Seq<char>,
    refs: SecretMapView,
    scope: ResolutionScope,
) -> Result<(), ErrorView> {
    match first_ref_fault(refs, scope) {
        Some(fault) => Err(secret_error(operation, fault)),
        None => Ok(()),
    }
}

/// Checks the secrets of a request.
pub fn check_secret_refs(
    operation: &str,
    refs: &SecretMap,
    scope: ResolutionScope,
) -> (checked: Result<(), Error>)
    ensures
        checked.model() == refs_checked(operation@, refs.model(), scope),
{
    match find_ref_fault(refs, scope) {
        Some(fault) => Err(
            Error::config(
                operation,
                cat4("secret '", fault.0.as_str(), "': ", fault.1.as_str()),
            ),
        ),
        None => Ok(()),
    }
}

/// Environment of a request whose secrets resolve to `resolved`.
pub open spec fn environment_of_request(
    env: EnvView,
    refs: SecretMapView,
    scope: ResolutionScope,
    resolved: Result<EnvView, ErrorView>,
) -> Result<EnvView, ErrorView> {
    match refs_checked("secrets"@, refs, scope) {
        Err(error) => Err(error),
        Ok(_) => match resolved {
            Err(error) => Err(error),
            Ok(values) => Ok(overridden(values, env)),
        },
    }
}

/// Environment of a request: the values of its secrets, which its own
/// variables override. `resolved` is what reading the secrets gave.
pub fn request_env(
    env: &Vec<(String, String)>,
    secret_refs: &SecretMap,
    secret_scope: ResolutionScope,
    resolved: Result<Vec<(String, String)>, Error>,
) -> (merged: Result<Vec<(String, String)>, Error>)
    ensures
        merged.model() == environment_of_request(
            env.model(),
            secret_refs.model(),
            secret_scope,
            resolved.model(),
        ),
{
    match check_secret_refs("secrets", secret_refs, secret_scope) {
        Err(error) => Err(error),
        Ok(_) => match resolved {
            Err(error) => Err(error),
            Ok(values) => Ok(merge_env_overrides(&values, env)),
        },
    }
}

/// Environment of a machine: its own variables, then the values of its secrets.
pub open spec fn environment_of_record(
    record: VmRecordView,
    resolved: Result<EnvView, ErrorView>,
) -> Result<EnvView, ErrorView> {
    match resolved {
        Err(error) => Err(error),
        Ok(values) => Ok(record.env + values),
    }
}

/// Environment of a machine. `resolved` is what reading its secrets gave.
pub fn record_env_with_secrets(
    record: &VmRecord,
    resolved: Result<Vec<(String, String)>, Error>,
) -> (env: Result<Vec<(String, String)>, Error>)
    ensures
        env.model() == environment_of_record(record.model(), resolved.model()),
{
    match resolved {
        Err(error) => Err(error),
        Ok(values) => {
            let mut env: Vec<(String, String)> = record.env.dup();
            extend_from(&mut env, &values);
            Ok(env)
        },
    }
}

/// What an environment gives for a variable: its last setting.
pub open spec fn value_of(env: EnvView, key: Seq<char>) -> Option<Seq<char>>
    decreases env.len(),
{
    if env.len() == 0 {
        None
    } else if env.last().0 == key {
        Some(env.last().1)
    } else {
        value_of(env.drop_last(), key)
    }
}

/// How often a variable occurs.
pub open spec fn occurrences(env: EnvView, key: Seq<char>) -> nat
    decreases env.len(),
{
    if env.len() == 0 {
        0
    } else {
        occurrences(env.drop_last(), key) + (if env.last().0 == key {
            1nat
        } else {
            0nat
        })
    }
}

proof fn lemma_without_key(env: EnvView, key: Seq<char>, other: Seq<char>)
    ensures
        occurrences(without_key(env, key), other) == (if other == key {
            0
        } else {
            occurrences(env, other)
        }),
        value_of(without_key(env, key), other) == (if other == key {
            None
        } else {
            value_of(env, other)
        }),
    decreases env.len(),
{
    reveal(Seq::filter);
    if env.len() > 0 {
        lemma_without_key(env.drop_last(), key, other);
        let rest = without_key(env.drop_last(), key);
        if env.last().0 != key {
            assert(without_key(env, key) == rest.push(env.last()));
            assert(rest.push(env.last()).drop_last() =~= rest);
        }
    }
}

/// Law: setting a variable gives it that value, leaves one entry of it, and
/// changes no other variable.
pub proof fn law_set_variable(env: EnvView, key: Seq<char>, value: Seq<char>, other: Seq<char>)
    ensures
        value_of(with_variable(env, key, value), key) == Some(value),
        occurrences(with_variable(env, key, value), key) == 1,
        other != key ==> value_of(with_variable(env, key, value), other) == value_of(env, other),
        other != key ==> occurrences(with_variable(env, key, value), other) == occurrences(
            env,
            other,
        ),
{
    lemma_without_key(env, key, other);
    lemma_without_key(env, key, key);
    assert(with_variable(env, key, value).drop_last() =~= without_key(env, key));
}

/// Law: after overrides, a variable has the value that the overrides give it
/// last and occurs once, or keeps its value where no override names it.
pub proof fn law_overrides_win(env: EnvView, overrides: EnvView, key: Seq<char>)
    ensures
        value_of(overridden(env, overrides), key) == first_some(
            value_of(overrides, key),
            value_of(env, key),
        ),
        occurrences(overridden(env, overrides), key) == (if value_of(overrides, key) is Some {
            1
        } else {
            occurrences(env, key)
        }),
    decreases overrides.len(),
{
    if overrides.len() > 0 {
        let rest = overrides.drop_last();
        law_overrides_win(env, rest, key);
        law_set_variable(overridden(env, rest), overrides.last().0, overrides.last().1, key);
    }
}

/// Law: an untrusted request with any secret is refused.
pub proof fn law_untrusted_secrets_are_refused(
    env: EnvView,
    refs: SecretMapView,
    resolved: Result<EnvView, ErrorView>,
)
    requires
        refs.len() > 0,
    ensures
        environment_of_request(env, refs, ResolutionScope::Untrusted, resolved) is Err,
{
}

/// Law: what an environment gives for a variable is the value of its last setting,
/// and nothing exactly where it has no setting.
pub proof fn law_last_setting_counts(env: EnvView, key: Seq<char>)
    ensures
        value_of(env, key) is None <==> forall|i: int|
            0 <= i < env.len() ==> (#[trigger] env[i]).0 != key,
        value_of(env, key) matches Some(value) ==> exists|i: int|
            0 <= i < env.len() && #[trigger] env[i] == (key, value) && forall|j: int|
                i < j < env.len() ==> (#[trigger] env[j]).0 != key,
    decreases env.len(),
{
    if env.len() > 0 {
        let rest = env.drop_last();
        law_last_setting_counts(rest, key);
        if env.last().0 == key {
            assert(env[env.len() - 1] == (key, env.last().1));
        } else {
            if value_of(rest, key) is Some {
                let value = value_of(rest, key)->0;
                let i = choose|i: int|
                    0 <= i < rest.len() && #[trigger] rest[i] == (key, value) && forall|j: int|
                        i < j < rest.len() ==> (#[trigger] rest[j]).0 != key;
                assert(env[i] == (key, value));
                assert forall|j: int| i < j < env.len() implies (#[trigger] env[j]).0 != key by {
                    if j < rest.len() {
                        assert(rest[j] == env[j]);
                    }
                }
            } else {
                assert forall|i: int| 0 <= i < env.len() implies (#[trigger] env[i]).0 != key by {
                    if i < rest.len() {
                        assert(rest[i] == env[i]);
                    }
                }
            }
        }
    }
}

/// Law: of the variables of an image, each entry sets its variable over what was
/// set before and leaves the others, and what is no `KEY=VALUE` sets nothing.
pub proof fn law_image_variables(
    parsed: Seq<Option<(Seq<char>, Seq<char>)>>,
    entry: Option<(Seq<char>, Seq<char>)>,
    key: Seq<char>,
)
    ensures
        image_variables(Seq::empty()).len() == 0,
        value_of(image_variables(parsed.push(entry)), key) == (if entry is Some && (entry->0).0
            == key {
            Some((entry->0).1)
        } else {
            value_of(image_variables(parsed), key)
        }),
{
    assert(parsed.push(entry).drop_last() =~= parsed);
    if entry is Some {
        law_set_variable(image_variables(parsed), (entry->0).0, (entry->0).1, key);
    }
}

/// Law: what a request says goes before what its image says: a variable that the
/// request sets, a directory and a user that it names are used as they are; the
/// image's stand in only where the request says nothing.
pub proof fn law_request_goes_before_image(
    image: Option<ImageInfoView>,
    parsed: Seq<Option<(Seq<char>, Seq<char>)>>,
    env: EnvView,
    workdir: Option<Seq<char>>,
    user: Option<Seq<char>>,
    key: Seq<char>,
)
    ensures
        ({
            let defaults = runtime_defaults(image, parsed, env, workdir, user);
            &&& value_of(env, key) is Some ==> value_of(defaults.env, key) == value_of(env, key)
            &&& value_of(env, key) is None && image is Some ==> value_of(defaults.env, key)
                == value_of(image_variables(parsed), key)
            &&& value_of(env, key) is None && image is None ==> value_of(defaults.env, key) is None
            &&& workdir is Some ==> defaults.workdir == workdir
            &&& workdir is None && image is Some ==> defaults.workdir == image->0.workdir
            &&& workdir is None && image is None ==> defaults.workdir is None
            &&& user is Some ==> defaults.user == user
            &&& user is None && image is Some ==> defaults.user == image->0.user
            &&& user is None && image is None ==> defaults.user is None
        }),
{
    if image is Some {
        law_overrides_win(image_variables(parsed), env, key);
    } else {
        law_overrides_win(Seq::empty(), env, key);
    }
}

/// Law: secrets pass the check exactly where each of them is acceptable; the error
/// names the operation.
pub proof fn law_secrets_are_checked_one_by_one(
    operation: Seq<char>,
    refs: SecretMapView,
    scope: ResolutionScope,
)
    ensures
        refs_checked(operation, refs, scope) is Ok <==> forall|i: int|
            0 <= i < refs.len() ==> ref_fault((#[trigger] refs[i]).1, scope) is None,
        refs_checked(operation, refs, scope) matches Err(error) ==> (
        error matches ErrorView::Config { operation: named, .. } && named == operation),
    decreases refs.len(),
{
    if refs.len() > 0 {
        let rest = refs.skip(1);
        law_secrets_are_checked_one_by_one(operation, rest, scope);
        if ref_fault(refs[0].1, scope) is None {
            if refs_checked(operation, rest, scope) is Ok {
                assert forall|i: int| 0 <= i < refs.len() implies ref_fault(
                    (#[trigger] refs[i]).1,
                    scope,
                ) is None by {
                    if i > 0 {
                        assert(rest[i - 1] == refs[i]);
                    }
                }
            } else {
                assert forall|i: int|
                    0 <= i < rest.len() && !(ref_fault((#[trigger] rest[i]).1, scope)
                        is None) implies !(ref_fault(refs[i + 1].1, scope) is None) by {}
                let i = choose|i: int|
                    0 <= i < rest.len() && !(ref_fault((#[trigger] rest[i]).1, scope) is None);
                assert(refs[i + 1] == rest[i]);
            }
        }
    }
}

/// Law: in the environment of a request a variable has the value that the request
/// gives it, or else that of a secret; a request whose secrets are not acceptable
/// or cannot be read has no environment.
pub proof fn law_request_environment(
    env: EnvView,
    refs: SecretMapView,
    scope: ResolutionScope,
    resolved: Result<EnvView, ErrorView>,
    key: Seq<char>,
)
    ensures
        environment_of_request(env, refs, scope, resolved) is Ok <==> refs_checked(
            "secrets"@,
            refs,
            scope,
        ) is Ok && resolved is Ok,
        environment_of_request(env, refs, scope, resolved) matches Ok(made) ==> {
            &&& value_of(env, key) is Some ==> value_of(made, key) == value_of(env, key)
            &&& value_of(env, key) is None ==> value_of(made, key) == value_of(
                resolved->Ok_0,
                key,
            )
        },
        refs_checked("secrets"@, refs, scope) is Ok && resolved is Err ==> environment_of_request(
            env,
            refs,
            scope,
            resolved,
        ) == resolved,
{
    if resolved is Ok {
        law_overrides_win(resolved->Ok_0, env, key);
    }
}

/// Law: the environment of a machine holds its own variables, in their order, and
/// after them the values of its secrets, and nothing else.
pub proof fn law_machine_environment(record: VmRecordView, resolved: Result<EnvView, ErrorView>)
    ensures
        resolved is Err ==> environment_of_record(record, resolved) == resolved,
        resolved matches Ok(values) ==> (environment_of_record(record, resolved) matches Ok(made)
            && made.len() == record.env.len() + values.len() && (forall|i: int|
            0 <= i < record.env.len() ==> #[trigger] made[i] == record.env[i]) && (forall|i: int|
            0 <= i < values.len() ==> made[record.env.len() + i] == #[trigger] values[i])),
{
}

/// Law: of two environments one after the other, the later one counts where it sets a
/// variable, and the earlier one otherwise.
pub proof fn law_later_settings_win(first: EnvView, second: EnvView, key: Seq<char>)
    ensures
        value_of(second, key) is Some ==> value_of(first + second, key) == value_of(second, key),
        value_of(second, key) is None ==> value_of(first + second, key) == value_of(first, key),
    decreases second.len(),
{
    if second.len() == 0 {
        assert(first + second =~= first);
    } else {
        assert((first + second).drop_last() =~= first + second.drop_last());
        law_later_settings_win(first, second.drop_last(), key);
    }
}

} // verus!
