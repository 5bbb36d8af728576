//! Secret references: where a guest environment variable takes its value from.

use crate::model::{empty_list, Model};
use crate::text::{chars_of, own, starts_with};
use vstd::prelude::*;

verus! {

/// Source of a secret on the host.
#[derive(Debug, PartialEq, Eq)]
pub struct SecretRef {
    /// Host environment variable to read.
    pub from_env: Option<String>,
    /// Host file to read.
    pub from_file: Option<String>,
}

/// Mathematical model of a [`SecretRef`].
pub struct SecretRefView {
    pub from_env: Option<Seq<char>>,
    pub from_file: Option<Seq<char>>,
}

impl Model for SecretRef {
    type V = SecretRefView;

    open spec fn model(&self) -> SecretRefView {
        SecretRefView {
            from_env: self.from_env.model(),
            from_file: self.from_file.model(),
        }
    }

    fn dup(&self) -> (copy: Self) {
        SecretRef {
            from_env: self.from_env.dup(),
            from_file: self.from_file.dup(),
        }
    }
}

/// Who asks for a secret to be resolved.
#[derive(Debug, Clone, Copy, PartialEq, Eq, Structural)]
pub enum ResolutionScope {
    /// The user of this host, through the command line.
    TrustedLocal,
    /// A machine record that the host user wrote earlier.
    RecordReplay,
    /// Anybody else: an HTTP caller or a packed machine.
    Untrusted,
}

impl Model for ResolutionScope {
    type V = ResolutionScope;

    open spec fn model(&self) -> ResolutionScope {
        *self
    }

    fn dup(&self) -> (copy: Self) {
        *self
    }
}

/// A reference to a host environment variable.
pub fn env_ref(variable: &str) -> (secret: SecretRef)
    ensures
        secret.model() == (SecretRefView { from_env: Some(variable@), from_file: None }),
{
    SecretRef { from_env: Some(own(variable)), from_file: None }
}

/// A reference to a host file.
pub fn file_ref(path: &str) -> (secret: SecretRef)
    ensures
        secret.model() == (SecretRefView { from_env: None, from_file: Some(path@) }),
{
    SecretRef { from_env: None, from_file: Some(own(path)) }
}

/// Why a reference is not acceptable in a scope, if it is not: an untrusted
/// source may not use any, a reference names exactly one source, and a file is
/// named by its absolute path.
pub open spec fn ref_fault(secret: SecretRefView, scope: ResolutionScope) -> Option<Seq<char>> {
    if scope == ResolutionScope::Untrusted {
        Some("secret refs (from_env/from_file) are only resolved for the trusted local host user"@)
    } else if secret.from_env is None && secret.from_file is None {
        Some("secret ref names no source"@)
    } else if secret.from_env is Some && secret.from_file is Some {
        Some("secret ref names both from_env and from_file"@)
    } else if secret.from_file is Some && !("/"@).is_prefix_of(secret.from_file->0) {
        Some("from_file must be an absolute path"@)
    } else {
        None
    }
}

/// Checks a reference against the policy of a scope.
pub fn validate_ref(secret: &SecretRef, scope: ResolutionScope) -> (checked: Result<(), String>)
    ensures
        checked.model() == (match ref_fault(secret.model(), scope) {
            Some(fault) => Err::<(), Seq<char>>(fault),
            None => Ok(()),
        }),
{
    if scope == ResolutionScope::Untrusted {
        return Err(
            own("secret refs (from_env/from_file) are only resolved for the trusted local host user"),
        );
    }
    match (&secret.from_env, &secret.from_file) {
        (None, None) => Err(own("secret ref names no source")),
        (Some(_), Some(_)) => Err(own("secret ref names both from_env and from_file")),
        (Some(_), None) => Ok(()),
        (None, Some(path)) => if starts_with(path.as_str(), "/") {
            Ok(())
        } else {
            Err(own("from_file must be an absolute path"))
        },
    }
}

/// Whether `a` comes before `b` in code point order.
pub open spec fn precedes(a: Seq<char>, b: Seq<char>) -> bool
    decreases a.len(),
{
    if b.len() == 0 {
        false
    } else if a.len() == 0 {
        true
    } else if a[0] == b[0] {
        precedes(a.skip(1), b.skip(1))
    } else {
        a[0] < b[0]
    }
}

/// `precedes` is a strict total order.
pub proof fn lemma_precedes_total(a: Seq<char>, b: Seq<char>)
    ensures
        !precedes(a, a),
        precedes(a, b) ==> !precedes(b, a),
        precedes(a, b) || precedes(b, a) || a == b,
    decreases a.len(),
{
    if a.len() > 0 {
        lemma_precedes_total(a.skip(1), a.skip(1));
        if b.len() > 0 && a[0] == b[0] {
            lemma_precedes_total(a.skip(1), b.skip(1));
            if a.skip(1) == b.skip(1) {
                assert(a =~= seq![a[0]] + a.skip(1));
                assert(b =~= seq![b[0]] + b.skip(1));
            }
        }
    } else if b.len() == 0 {
        assert(a =~= b);
    }
}

/// `precedes` is transitive.
pub proof fn lemma_precedes_transitive(a: Seq<char>, b: Seq<char>, c: Seq<char>)
    requires
        precedes(a, b),
        precedes(b, c),
    ensures
        precedes(a, c),
    decreases a.len(),
{
    if a.len() > 0 && a[0] == b[0] && b[0] == c[0] {
        lemma_precedes_transitive(a.skip(1), b.skip(1), c.skip(1));
    }
}

/// Whether the text `a` comes before the text `b`.
fn comes_before(a: &str, b: &str) -> (before: bool)
    ensures
        before == precedes(a@, b@),
{
    let left: Vec<char> = chars_of(a);
    let right: Vec<char> = chars_of(b);
    let mut i: usize = 0;
    assert(a@.skip(0) =~= a@);
    assert(b@.skip(0) =~= b@);
    while i < left.len() && i < right.len()
        invariant
            i <= left.len(),
            i <= right.len(),
            left@ == a@,
            right@ == b@,
            precedes(a@.skip(i as int), b@.skip(i as int)) == precedes(a@, b@),
        decreases left.len() - i,
    {
        assert(a@.skip(i as int).skip(1) =~= a@.skip(i + 1));
        assert(b@.skip(i as int).skip(1) =~= b@.skip(i + 1));
        if left[i] != right[i] {
            return left[i] < right[i];
        }
        i += 1;
    }
    i < right.len()
}

/// Model of a [`SecretMap`]: its entries, in the order of their keys.
pub type SecretMapView = Seq<(Seq<char>, SecretRefView)>;

/// Whether entries stand in strictly increasing order of their keys.
pub open spec fn in_key_order(entries: SecretMapView) -> bool {
    forall|i: int, j: int|
        0 <= i < j < entries.len() ==> precedes(#[trigger] entries[i].0, #[trigger] entries[j].0)
}

/// What the entries give for a key.
pub open spec fn entry_at(entries: SecretMapView, key: Seq<char>) -> Option<SecretRefView> {
    if exists|i: int| 0 <= i < entries.len() && #[trigger] entries[i].0 == key {
        Some(entries[choose|i: int| 0 <= i < entries.len() && #[trigger] entries[i].0 == key].1)
    } else {
        None
    }
}

/// The entries after what they give for a key was set: a new key takes its place
/// in the order of the keys.
pub open spec fn with_entry(entries: SecretMapView, key: Seq<char>, value: SecretRefView) -> SecretMapView
    decreases entries.len(),
{
    if entries.len() == 0 {
        seq![(key, value)]
    } else if precedes(entries[0].0, key) {
        seq![entries[0]] + with_entry(entries.skip(1), key, value)
    } else if entries[0].0 == key {
        seq![(key, value)] + entries.skip(1)
    } else {
        seq![(key, value)] + entries
    }
}

proof fn lemma_with_entry(entries: SecretMapView, i: int, key: Seq<char>, value: SecretRefView)
    requires
        0 <= i <= entries.len(),
        forall|k: int| 0 <= k < i ==> precedes((#[trigger] entries[k]).0, key),
        i < entries.len() ==> !precedes(entries[i].0, key),
    ensures
        with_entry(entries, key, value) == (if i < entries.len() && entries[i].0 == key {
            entries.update(i, (key, value))
        } else {
            entries.insert(i, (key, value))
        }),
    decreases entries.len(),
{
    if i > 0 {
        let rest = entries.skip(1);
        assert forall|k: int| 0 <= k < i - 1 implies precedes((#[trigger] rest[k]).0, key) by {
            assert(rest[k] == entries[k + 1]);
        }
        assert(precedes(entries[0].0, key));
        lemma_with_entry(rest, i - 1, key, value);
    }
    if i < entries.len() && entries[i].0 == key {
        assert(with_entry(entries, key, value) =~= entries.update(i, (key, value)));
    } else {
        assert(with_entry(entries, key, value) =~= entries.insert(i, (key, value)));
    }
}

proof fn place_of(entries: SecretMapView, key: Seq<char>) -> (place: int)
    ensures
        0 <= place <= entries.len(),
        forall|k: int| 0 <= k < place ==> precedes((#[trigger] entries[k]).0, key),
        place < entries.len() ==> !precedes(entries[place].0, key),
    decreases entries.len(),
{
    if entries.len() > 0 && precedes(entries[0].0, key) {
        let rest = entries.skip(1);
        let place = place_of(rest, key) + 1;
        assert forall|k: int| 0 <= k < place implies precedes((#[trigger] entries[k]).0, key) by {
            if k > 0 {
                assert(rest[k - 1] == entries[k]);
            }
        }
        place
    } else {
        0
    }
}

/// Setting what entries in key order give for a key keeps the order and every
/// other entry.
pub proof fn lemma_with_entry_gives(entries: SecretMapView, key: Seq<char>, value: SecretRefView)
    requires
        in_key_order(entries),
    ensures
        in_key_order(with_entry(entries, key, value)),
        forall|k: Seq<char>| #[trigger]
            entry_at(with_entry(entries, key, value), k) == (if k == key {
                Some(value)
            } else {
                entry_at(entries, k)
            }),
{
    let place = place_of(entries, key);
    lemma_with_entry(entries, place, key, value);
    if place < entries.len() && entries[place].0 == key {
        lemma_replaced(entries, place, value);
    } else {
        lemma_inserted(entries, place, key, value);
    }
}

/// Law: merging keeps the order of the keys; a key of the map that is taken over
/// gives what it gave there, and any other key what it gave before.
pub proof fn law_merged_entries(entries: SecretMapView, more: SecretMapView, key: Seq<char>)
    requires
        in_key_order(entries),
        in_key_order(more),
    ensures
        in_key_order(merged_entries(entries, more)),
        entry_at(merged_entries(entries, more), key) == (match entry_at(more, key) {
            Some(value) => Some(value),
            None => entry_at(entries, key),
        }),
    decreases more.len(),
{
    if more.len() > 0 {
        let rest = more.drop_last();
        assert forall|i: int, j: int| 0 <= i < j < rest.len() implies precedes(
            #[trigger] rest[i].0,
            #[trigger] rest[j].0,
        ) by {
            assert(precedes(more[i].0, more[j].0));
        }
        law_merged_entries(entries, rest, key);
        lemma_with_entry_gives(merged_entries(entries, rest), more.last().0, more.last().1);
        lemma_entry_at(more, more.len() - 1);
        if key != more.last().0 {
            if exists|i: int| 0 <= i < more.len() && #[trigger] more[i].0 == key {
                let i = choose|i: int| 0 <= i < more.len() && #[trigger] more[i].0 == key;
                lemma_entry_at(more, i);
                assert(rest[i] == more[i]);
                lemma_entry_at(rest, i);
            } else {
                assert forall|i: int| 0 <= i < rest.len() implies #[trigger] rest[i].0 != key by {
                    assert(rest[i] == more[i]);
                }
            }
        }
    }
}

/// The entries of one map, and those of another in place of what they replace.
pub open spec fn merged_entries(entries: SecretMapView, more: SecretMapView) -> SecretMapView
    decreases more.len(),
{
    if more.len() == 0 {
        entries
    } else {
        with_entry(merged_entries(entries, more.drop_last()), more.last().0, more.last().1)
    }
}

/// In key order, the entry at a place is what its key gives.
pub proof fn lemma_entry_at(entries: SecretMapView, i: int)
    requires
        in_key_order(entries),
        0 <= i < entries.len(),
    ensures
        entry_at(entries, entries[i].0) == Some(entries[i].1),
{
    let key = entries[i].0;
    let k = choose|k: int| 0 <= k < entries.len() && #[trigger] entries[k].0 == key;
    lemma_precedes_total(key, key);
    if k < i {
        assert(precedes(entries[k].0, entries[i].0));
    }
    if i < k {
        assert(precedes(entries[i].0, entries[k].0));
    }
}

/// Secret references keyed by the guest variable that they fill. Each key
/// occurs once, and the entries are kept in the order of their keys.
#[derive(Debug, PartialEq, Eq)]
pub struct SecretMap {
    entries: Vec<(String, SecretRef)>,
}

impl Model for SecretMap {
    type V = SecretMapView;

    closed spec fn model(&self) -> SecretMapView {
        self.entries.model()
    }

    fn dup(&self) -> (copy: Self) {
        proof {
            use_type_invariant(self);
        }
        let entries: Vec<(String, SecretRef)> = self.entries.dup();
        SecretMap { entries }
    }
}

impl SecretMap {
    #[verifier::type_invariant]
    spec fn keys_increase(&self) -> bool {
        in_key_order(self.entries.model())
    }

    /// A map without entries.
    pub fn new() -> (map: SecretMap)
        ensures
            map.model() == Seq::<(Seq<char>, SecretRefView)>::empty(),
    {
        let entries: Vec<(String, SecretRef)> = empty_list();
        SecretMap { entries }
    }

    /// The number of entries.
    pub fn len(&self) -> (count: usize)
        ensures
            count == self.model().len(),
    {
        self.entries.len()
    }

    /// The entry at a place in key order.
    pub fn entry(&self, i: usize) -> (entry: (&String, &SecretRef))
        requires
            i < self.model().len(),
        ensures
            entry.0@ == self.model()[i as int].0,
            entry.1.model() == self.model()[i as int].1,
            in_key_order(self.model()),
    {
        proof {
            use_type_invariant(self);
        }
        (&self.entries[i].0, &self.entries[i].1)
    }

    /// What the map gives for a key.
    pub fn get(&self, key: &str) -> (found: Option<SecretRef>)
        ensures
            found.model() == entry_at(self.model(), key@),
    {
        proof {
            use_type_invariant(self);
        }
        let mut i: usize = 0;
        while i < self.entries.len()
            invariant
                i <= self.entries.len(),
                in_key_order(self.entries.model()),
                forall|k: int| 0 <= k < i ==> (#[trigger] self.entries.model()[k]).0 != key@,
            decreases self.entries.len() - i,
        {
            assert(self.entries.model()[i as int].0 == self.entries[i as int].0@);
            if crate::text::same_text(self.entries[i].0.as_str(), key) {
                proof {
                    lemma_entry_at(self.entries.model(), i as int);
                }
                return Some(self.entries[i].1.dup());
            }
            i += 1;
        }
        None
    }

    /// Sets what the map gives for a key, and returns what it gave before.
    pub fn insert(&mut self, key: String, value: SecretRef) -> (previous: Option<SecretRef>)
        ensures
            previous.model() == entry_at(old(self).model(), key@),
            final(self).model() == with_entry(old(self).model(), key@, value.model()),
            in_key_order(final(self).model()),
            forall|k: Seq<char>| #[trigger]
                entry_at(final(self).model(), k) == (if k == key@ {
                    Some(value.model())
                } else {
                    entry_at(old(self).model(), k)
                }),
    {
        proof {
            use_type_invariant(&*self);
        }
        let mut entries: Vec<(String, SecretRef)> = empty_list();
        std::mem::swap(&mut entries, &mut self.entries);
        let ghost before = entries.model();
        let mut i: usize = 0;
        while i < entries.len() && comes_before(entries[i].0.as_str(), key.as_str())
            invariant
                i <= entries.len(),
                entries.model() == before,
                forall|k: int| 0 <= k < i ==> precedes((#[trigger] before[k]).0, key@),
            decreases entries.len() - i,
        {
            assert(before[i as int].0 == entries[i as int].0@);
            i += 1;
        }
        let ghost k0 = key@;
        let ghost v0 = value.model();
        if i < entries.len() {
            assert(before[i as int].0 == entries[i as int].0@);
            if crate::text::same_text(entries[i].0.as_str(), key.as_str()) {
                let previous: SecretRef = entries[i].1.dup();
                entries.set(i, (key, value));
                let ghost after = entries.model();
                assert(after =~= before.update(i as int, (k0, v0)));
                proof {
                    lemma_entry_at(before, i as int);
                    lemma_replaced(before, i as int, v0);
                    lemma_precedes_total(k0, k0);
                    lemma_with_entry(before, i as int, k0, v0);
                }
                self.entries = entries;
                return Some(previous);
            }
        }
        entries.insert(i, (key, value));
        let ghost after = entries.model();
        assert(after =~= before.insert(i as int, (k0, v0)));
        proof {
            lemma_inserted(before, i as int, k0, v0);
            lemma_with_entry(before, i as int, k0, v0);
        }
        self.entries = entries;
        None
    }

    /// Takes over the entries of another map.
    pub fn extend(&mut self, more: &SecretMap)
        ensures
            final(self).model() == merged_entries(old(self).model(), more.model()),
    {
        let ghost before = self.model();
        let ghost all = more.model();
        let mut i: usize = 0;
        assert(merged_entries(before, all.take(0)) == before);
        while i < more.len()
            invariant
                i <= all.len(),
                all == more.model(),
                self.model() == merged_entries(before, all.take(i as int)),
            decreases all.len() - i,
        {
            let entry = more.entry(i);
            assert(all.take(i + 1).drop_last() =~= all.take(i as int));
            assert(all.take(i + 1).last() == all[i as int]);
            self.insert(entry.0.dup(), entry.1.dup());
            i += 1;
        }
        assert(all.take(all.len() as int) =~= all);
    }
}

proof fn lemma_replaced(before: SecretMapView, i: int, value: SecretRefView)
    requires
        in_key_order(before),
        0 <= i < before.len(),
    ensures
        in_key_order(before.update(i, (before[i].0, value))),
        forall|k: Seq<char>| #[trigger]
            entry_at(before.update(i, (before[i].0, value)), k) == (if k == before[i].0 {
                Some(value)
            } else {
                entry_at(before, k)
            }),
{
    let after = before.update(i, (before[i].0, value));
    assert forall|a: int, b: int| 0 <= a < b < after.len() implies precedes(
        #[trigger] after[a].0,
        #[trigger] after[b].0,
    ) by {
        assert(precedes(before[a].0, before[b].0));
    }
    assert forall|k: Seq<char>| #[trigger] entry_at(after, k) == (if k == before[i].0 {
        Some(value)
    } else {
        entry_at(before, k)
    }) by {
        lemma_entry_at(after, i);
        if k != before[i].0 {
            if exists|j: int| 0 <= j < before.len() && #[trigger] before[j].0 == k {
                let j = choose|j: int| 0 <= j < before.len() && #[trigger] before[j].0 == k;
                lemma_entry_at(before, j);
                assert(after[j].0 == k);
                lemma_entry_at(after, j);
            } else {
                assert forall|j: int| 0 <= j < after.len() implies #[trigger] after[j].0 != k by {
                    assert(before[j].0 != k);
                }
            }
        }
    }
}

proof fn lemma_inserted(before: SecretMapView, i: int, key: Seq<char>, value: SecretRefView)
    requires
        in_key_order(before),
        0 <= i <= before.len(),
        forall|k: int| 0 <= k < i ==> precedes((#[trigger] before[k]).0, key),
        i < before.len() ==> !precedes(before[i].0, key) && before[i].0 != key,
    ensures
        in_key_order(before.insert(i, (key, value))),
        entry_at(before, key) is None,
        forall|k: Seq<char>| #[trigger]
            entry_at(before.insert(i, (key, value)), k) == (if k == key {
                Some(value)
            } else {
                entry_at(before, k)
            }),
{
    let after = before.insert(i, (key, value));
    assert forall|j: int| i <= j < before.len() implies precedes(key, #[trigger] before[j].0) by {
        lemma_precedes_total(before[i].0, key);
        if j > i {
            lemma_precedes_transitive(key, before[i].0, before[j].0);
        }
    }
    assert forall|j: int| 0 <= j < before.len() implies #[trigger] before[j].0 != key by {
        lemma_precedes_total(key, key);
    }
    assert forall|a: int, b: int| 0 <= a < b < after.len() implies precedes(
        #[trigger] after[a].0,
        #[trigger] after[b].0,
    ) by {
        let a0 = if a < i { a } else { a - 1 };
        let b0 = if b < i { b } else { b - 1 };
        if a != i && b != i {
            assert(after[a] == before[a0] && after[b] == before[b0]);
            assert(precedes(before[a0].0, before[b0].0));
        } else if a == i {
            assert(after[b] == before[b0]);
        } else {
            assert(after[a] == before[a0]);
        }
    }
    assert forall|k: Seq<char>| #[trigger] entry_at(after, k) == (if k == key {
        Some(value)
    } else {
        entry_at(before, k)
    }) by {
        assert(after[i] == (key, value));
        lemma_entry_at(after, i);
        if k != key {
            if exists|j: int| 0 <= j < before.len() && #[trigger] before[j].0 == k {
                let j = choose|j: int| 0 <= j < before.len() && #[trigger] before[j].0 == k;
                lemma_entry_at(before, j);
                let j1 = if j < i { j } else { j + 1 };
                assert(after[j1] == before[j]);
                lemma_entry_at(after, j1);
            } else {
                assert forall|j: int| 0 <= j < after.len() implies #[trigger] after[j].0 != k by {
                    if j != i {
                        let j0 = if j < i { j } else { j - 1 };
                        assert(after[j] == before[j0]);
                        assert(before[j0].0 != k);
                    }
                }
            }
        }
    }
}

/// Law: a map gives back what was set last for a key and keeps every other
/// entry, so its entries depend only on what each key gives.
pub proof fn law_secret_map_is_determined(a: SecretMapView, b: SecretMapView)
    requires
        in_key_order(a),
        in_key_order(b),
        forall|k: Seq<char>| entry_at(a, k) == entry_at(b, k),
    ensures
        a == b,
    decreases a.len(),
{
    if a.len() == 0 {
        if b.len() > 0 {
            lemma_entry_at(b, 0);
            assert(entry_at(a, b[0].0) is None);
        }
        assert(a =~= b);
    } else {
        lemma_entry_at(a, 0);
        assert(entry_at(b, a[0].0) is Some);
        let j = choose|j: int| 0 <= j < b.len() && #[trigger] b[j].0 == a[0].0;
        lemma_entry_at(b, 0);
        assert(entry_at(a, b[0].0) is Some);
        let i = choose|i: int| 0 <= i < a.len() && #[trigger] a[i].0 == b[0].0;
        lemma_precedes_total(a[0].0, b[0].0);
        if j > 0 {
            assert(precedes(b[0].0, b[j].0));
        }
        if i > 0 {
            assert(precedes(a[0].0, a[i].0));
        }
        assert(a[0].0 == b[0].0);
        assert(a[0] == b[0]);
        let a1 = a.skip(1);
        let b1 = b.skip(1);
        assert forall|x: int, y: int| 0 <= x < y < a1.len() implies precedes(
            #[trigger] a1[x].0,
            #[trigger] a1[y].0,
        ) by {
            assert(precedes(a[x + 1].0, a[y + 1].0));
        }
        assert forall|x: int, y: int| 0 <= x < y < b1.len() implies precedes(
            #[trigger] b1[x].0,
            #[trigger] b1[y].0,
        ) by {
            assert(precedes(b[x + 1].0, b[y + 1].0));
        }
        assert forall|k: Seq<char>| entry_at(a1, k) == entry_at(b1, k) by {
            lemma_rest_entry(a, k);
            lemma_rest_entry(b, k);
            assert(entry_at(a, k) == entry_at(b, k));
        }
        law_secret_map_is_determined(a1, b1);
        assert(a =~= seq![a[0]] + a1);
        assert(b =~= seq![b[0]] + b1);
    }
}

proof fn lemma_rest_entry(entries: SecretMapView, k: Seq<char>)
    requires
        in_key_order(entries),
        entries.len() > 0,
    ensures
        entry_at(entries.skip(1), k) == (if k == entries[0].0 {
            None
        } else {
            entry_at(entries, k)
        }),
{
    let rest = entries.skip(1);
    assert forall|x: int, y: int| 0 <= x < y < rest.len() implies precedes(
        #[trigger] rest[x].0,
        #[trigger] rest[y].0,
    ) by {
        assert(precedes(entries[x + 1].0, entries[y + 1].0));
    }
    if k == entries[0].0 {
        assert forall|j: int| 0 <= j < rest.len() implies #[trigger] rest[j].0 != k by {
            assert(precedes(entries[0].0, entries[j + 1].0));
            lemma_precedes_total(k, k);
        }
    } else if exists|j: int| 0 <= j < entries.len() && #[trigger] entries[j].0 == k {
        let j = choose|j: int| 0 <= j < entries.len() && #[trigger] entries[j].0 == k;
        lemma_entry_at(entries, j);
        assert(rest[j - 1] == entries[j]);
        lemma_entry_at(rest, j - 1);
    } else {
        assert forall|j: int| 0 <= j < rest.len() implies #[trigger] rest[j].0 != k by {
            assert(entries[j + 1].0 != k);
        }
    }
}

/// Law: no reference is acceptable from an untrusted source. From a trusted one a
/// reference is acceptable exactly where it names one source, and a file by its
/// absolute path.
pub proof fn law_acceptable_references(secret: SecretRefView, scope: ResolutionScope)
    ensures
        scope == ResolutionScope::Untrusted ==> ref_fault(secret, scope) is Some,
        scope != ResolutionScope::Untrusted ==> (ref_fault(secret, scope) is None <==> (
        secret.from_env is Some && secret.from_file is None) || (secret.from_env is None
            && secret.from_file is Some && secret.from_file->0.len() > 0 && secret.from_file->0[0]
            == '/')),
{
    reveal_strlit("/");
    if secret.from_file is Some {
        let path = secret.from_file->0;
        if path.len() > 0 && path[0] == '/' {
            assert(path.subrange(0, 1) =~= "/"@);
        }
        if ("/"@).is_prefix_of(path) {
            assert(path.subrange(0, 1)[0] == '/');
        }
    }
}

} // verus!
