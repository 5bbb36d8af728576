//! HTTP API: allowed origins, paths in metrics, and trace ids.

use crate::model::{empty_list, push_to, Model};
use crate::text::{
    cat2, hexadecimal, join, joined, own, padded_hex, pieces, same_text, split_all, zero_padded,
};
use vstd::prelude::*;

verus! {

/// Seconds after which a request is given up, but for those that are meant to
/// stay open.
pub const API_REQUEST_TIMEOUT_SECS: u64 = 300;

/// Identifies a request in logs.
#[derive(Debug, PartialEq, Eq)]
pub struct TraceId {
    pub id: String,
}

/// Mathematical model of a [`TraceId`].
pub struct TraceIdView {
    pub id: Seq<char>,
}

impl Model for TraceId {
    type V = TraceIdView;

    open spec fn model(&self) -> TraceIdView {
        TraceIdView {
            id: self.id.model(),
        }
    }

    fn dup(&self) -> (copy: Self) {
        TraceId {
            id: self.id.dup(),
        }
    }
}

/// The id of the request with this number in the process with this number.
pub open spec fn trace_of(sequence: u64, process: u32) -> Seq<char> {
    zero_padded(hexadecimal(sequence as nat), 8) + zero_padded(hexadecimal(process as nat), 8)
}

impl TraceId {
    /// Makes the id of the request with this number in the process with this
    /// number.
    pub fn of(sequence: u64, process: u32) -> (trace: TraceId)
        ensures
            trace.id@ == trace_of(sequence, process),
    {
        TraceId {
            id: cat2(padded_hex(sequence, 8).as_str(), padded_hex(process as u64, 8).as_str()),
        }
    }
}

/// Whether a text can be the value of an HTTP header: a control character other
/// than a tab stands nowhere in it.
pub open spec fn is_field_value(text: Seq<char>) -> bool {
    forall|i: int|
        0 <= i < text.len() ==> (#[trigger] text[i] == '\t' || (text[i] as u32 >= 32 && text[i] as u32
            != 127))
}

/// Trusted: `axum::http::HeaderValue::from_str` accepts a text exactly where every
/// byte of it is a tab, or at least 32 and not 127. The bytes of a character
/// outside ASCII are all at least 128.
#[verifier::external_body]
fn accepted_by_header(text: &str) -> (accepted: bool)
    ensures
        accepted == is_field_value(text@),
{
    axum::http::HeaderValue::from_str(text).is_ok()
}

/// The origins that are allowed where none is configured.
pub open spec fn default_origins() -> Seq<Seq<char>> {
    seq![
        "http://localhost:8080"@,
        "http://127.0.0.1:8080"@,
        "http://localhost:3000"@,
        "http://127.0.0.1:3000"@,
    ]
}

/// The configured origins that can stand in a header.
pub open spec fn usable_origins(configured: Seq<Seq<char>>) -> Seq<Seq<char>> {
    configured.filter(|origin: Seq<char>| is_field_value(origin))
}

/// The origins that are allowed: the usable ones of those that are configured,
/// or else the default ones.
pub open spec fn allowed_origins(configured: Seq<Seq<char>>) -> Seq<Seq<char>> {
    if usable_origins(configured).len() == 0 {
        default_origins()
    } else {
        usable_origins(configured)
    }
}

/// Tells the origins that are allowed.
pub fn cors_origins(configured: &Vec<String>) -> (origins: Vec<String>)
    ensures
        origins.model() == allowed_origins(configured.model()),
{
    let mut origins: Vec<String> = empty_list();
    let ghost all = configured.model();
    let mut i: usize = 0;
    assert(usable_origins(all.take(0)) =~= Seq::<Seq<char>>::empty()) by {
        reveal(Seq::filter);
    }
    while i < configured.len()
        invariant
            i <= configured.len(),
            configured.model() == all,
            origins.model() == usable_origins(all.take(i as int)),
        decreases configured.len() - i,
    {
        assert(all.take(i + 1).drop_last() =~= all.take(i as int));
        assert(all.take(i + 1).last() == configured[i as int]@);
        reveal(Seq::filter);
        if accepted_by_header(configured[i].as_str()) {
            push_to(&mut origins, configured[i].dup());
        }
        i += 1;
    }
    assert(all.take(all.len() as int) =~= all);
    if origins.is_empty() {
        push_to(&mut origins, own("http://localhost:8080"));
        push_to(&mut origins, own("http://127.0.0.1:8080"));
        push_to(&mut origins, own("http://localhost:3000"));
        push_to(&mut origins, own("http://127.0.0.1:3000"));
        assert(origins.model() =~= default_origins());
    }
    origins
}

/// Law: some origin is always allowed, and none but a configured or a default
/// one.
pub proof fn law_allowed_origins(configured: Seq<Seq<char>>, origin: Seq<char>)
    ensures
        allowed_origins(configured).len() > 0,
        allowed_origins(configured).contains(origin) ==> configured.contains(origin)
            || default_origins().contains(origin),
{
    if usable_origins(configured).contains(origin) {
        configured.lemma_filter_contains_rev(|origin: Seq<char>| is_field_value(origin), origin);
    }
}

/// Whether a path names a machine: it is split at the slashes.
pub open spec fn names_machine(parts: Seq<Seq<char>>) -> bool {
    parts.len() >= 5 && parts[1] == "api"@ && parts[3] == "machines"@ && parts[4].len() > 0
}

/// A path as it stands in metrics: `:id` stands for the name of a machine.
pub open spec fn metrics_path(path: Seq<char>) -> Seq<char> {
    let parts = pieces(path, '/');
    if names_machine(parts) {
        joined(parts.update(4, ":id"@), seq!['/'])
    } else {
        path
    }
}

/// Makes a path as it stands in metrics.
pub fn normalize_metrics_path(path: &str) -> (normalized: String)
    ensures
        normalized@ == metrics_path(path@),
{
    let mut parts: Vec<String> = split_all(path, '/');
    let ghost before = parts.model();
    if parts.len() >= 5 && same_text(parts[1].as_str(), "api") && same_text(
        parts[3].as_str(),
        "machines",
    ) && !parts[4].as_str().is_empty() {
        parts.set(4, own(":id"));
        assert(parts.model() =~= before.update(4, ":id"@));
        proof {
            reveal_strlit("/");
        }
        assert("/"@ =~= seq!['/']);
        return join(&parts, "/");
    }
    own(path)
}

/// Law: the path of a machine stands in metrics as if the machine were named
/// `:id`, so paths that differ only in the name of the machine are the same
/// there.
pub proof fn law_metrics_hide_the_machine(parts: Seq<Seq<char>>)
    requires
        names_machine(parts),
        forall|i: int| 0 <= i < parts.len() ==> !(#[trigger] parts[i]).contains('/'),
    ensures
        metrics_path(joined(parts, seq!['/'])) == joined(parts.update(4, ":id"@), seq!['/']),
{
    crate::logs::law_joined_pieces_split(parts, '/');
}

/// Law: a path as it stands in metrics is not changed again.
pub proof fn law_metrics_path_is_final(path: Seq<char>)
    ensures
        metrics_path(metrics_path(path)) == metrics_path(path),
{
    let parts = pieces(path, '/');
    if names_machine(parts) {
        reveal_strlit(":id");
        let named = parts.update(4, ":id"@);
        lemma_pieces_are_free(path, '/');
        assert forall|i: int| 0 <= i < named.len() implies !(#[trigger] named[i]).contains('/') by {
            if i == 4 {
                assert(named[i] == ":id"@);
            } else {
                assert(named[i] == parts[i]);
            }
        }
        assert(named[4] == ":id"@);
        crate::logs::law_joined_pieces_split(named, '/');
        assert(named.update(4, ":id"@) =~= named);
    }
}

/// The pieces of a text do not hold the character at which it was split.
proof fn lemma_pieces_are_free(text: Seq<char>, c: char)
    ensures
        forall|i: int| 0 <= i < pieces(text, c).len() ==> !(#[trigger] pieces(text, c)[i]).contains(c),
    decreases text.len(),
{
    crate::text::lemma_position(text, c);
    let at = crate::text::position(text, c);
    if at < text.len() {
        let rest = text.skip(at + 1);
        lemma_pieces_are_free(rest, c);
        let parts = pieces(text, c);
        assert(parts =~= seq![text.take(at)] + pieces(rest, c));
        assert forall|i: int| 0 <= i < parts.len() implies !(#[trigger] parts[i]).contains(c) by {
            if i > 0 {
                assert(parts[i] == pieces(rest, c)[i - 1]);
            }
        }
    }
}

/// Law: the id of a request is sixteen characters or more, the number of the request before that of the
/// process, each in hexadecimal notation.
pub proof fn law_trace_tells_request_and_process(sequence: u64, process: u32)
    ensures
        hexadecimal(process as nat).is_suffix_of(trace_of(sequence, process)),
        hexadecimal(sequence as nat).len() >= 8 ==> hexadecimal(sequence as nat).is_prefix_of(
            trace_of(sequence, process),
        ),
        hexadecimal(sequence as nat).len() < 8 ==> hexadecimal(sequence as nat).is_suffix_of(
            trace_of(sequence, process).take(8),
        ),
        trace_of(sequence, process).len() >= 16,
{
    let a = hexadecimal(sequence as nat);
    let b = hexadecimal(process as nat);
    let id = trace_of(sequence, process);
    assert(id.subrange(id.len() - b.len(), id.len() as int) =~= b);
    if a.len() >= 8 {
        assert(a =~= id.take(a.len() as int));
    } else {
        let head = id.take(8);
        assert(head.subrange(head.len() - a.len(), head.len() as int) =~= a);
    }
}

/// Law: every configured origin that can stand in a header is allowed, and the default ones only where
/// there is none of these.
pub proof fn law_usable_origins_are_allowed(configured: Seq<Seq<char>>, i: int)
    requires
        0 <= i < configured.len(),
        forall|k: int|
            0 <= k < configured[i].len() ==> (#[trigger] configured[i][k] == '\t' || (
            configured[i][k] as u32 >= 32 && configured[i][k] as u32 != 127)),
    ensures
        allowed_origins(configured).contains(configured[i]),
        forall|k: int|
            0 <= k < allowed_origins(configured).len() ==> !(#[trigger] allowed_origins(
                configured,
            )[k]).contains('\n') && configured.contains(allowed_origins(configured)[k]),
{
    let usable = |origin: Seq<char>| is_field_value(origin);
    assert(is_field_value(configured[i]));
    configured.lemma_filter_contains(usable, i);
    assert forall|k: int| 0 <= k < allowed_origins(configured).len() implies !(
    #[trigger] allowed_origins(configured)[k]).contains('\n') && configured.contains(allowed_origins(configured)[k]) by {
        configured.lemma_filter_pred(usable, k);
        configured.lemma_filter_contains_rev(usable, allowed_origins(configured)[k]);
        assert(is_field_value(allowed_origins(configured)[k]));
    }
}

/// Law: a path that names no machine stands in metrics as it is.
pub proof fn law_other_paths_stand_as_they_are(path: Seq<char>)
    requires
        pieces(path, '/').len() < 5 || pieces(path, '/')[1] != "api"@ || pieces(path, '/')[3]
            != "machines"@ || pieces(path, '/')[4].len() == 0,
    ensures
        metrics_path(path) == path,
{
}

} // verus!
