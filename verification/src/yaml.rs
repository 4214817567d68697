use vstd::prelude::*;

verus! {

broadcast use vstd::std_specs::vec::group_vec_axioms, vstd::seq::group_seq_axioms;

/// A structured document tree: the shape the on-disk configuration text is
/// parsed into, and the shape the tool serializes back out.  Scalar numbers
/// are kept in their textual form so that unmodeled fields round-trip.
#[derive(Debug)]
pub enum Yaml {
    Null,
    Bool(bool),
    Num(String),
    Str(String),
    List(Vec<Yaml>),
    Mapping(Vec<(String, Yaml)>),
}

/// The mathematical shape of a document tree: every string is a character
/// sequence, every list a sequence.  Contracts speak of this form.
#[verifier::ext_equal]
pub enum YamlV {
    Null,
    Bool(bool),
    Num(Seq<char>),
    Str(Seq<char>),
    List(Seq<YamlV>),
    Mapping(Seq<(Seq<char>, YamlV)>),
}

impl Yaml {
    pub open spec fn view(self) -> YamlV
        decreases self,
    {
        match self {
            Yaml::Null => YamlV::Null,
            Yaml::Bool(b) => YamlV::Bool(b),
            Yaml::Num(s) => YamlV::Num(s@),
            Yaml::Str(s) => YamlV::Str(s@),
            Yaml::List(items) => YamlV::List(view_items(items@)),
            Yaml::Mapping(entries) => YamlV::Mapping(view_entries(entries@)),
        }
    }
}

pub open spec fn view_items(s: Seq<Yaml>) -> Seq<YamlV>
    decreases s,
{
    if s.len() == 0 {
        Seq::empty()
    } else {
        seq![s[0].view()] + view_items(s.drop_first())
    }
}

pub open spec fn view_entries(s: Seq<(String, Yaml)>) -> Seq<(Seq<char>, YamlV)>
    decreases s,
{
    if s.len() == 0 {
        Seq::empty()
    } else {
        seq![(s[0].0@, s[0].1.view())] + view_entries(s.drop_first())
    }
}

/// The view of a list of nodes is the pointwise view.
pub proof fn lemma_view_items(s: Seq<Yaml>)
    ensures
        view_items(s).len() == s.len(),
        forall|i: int| 0 <= i < s.len() ==> #[trigger] view_items(s)[i] == s[i].view(),
    decreases s,
{
    if s.len() > 0 {
        lemma_view_items(s.drop_first());
    }
}

/// The view of a list of entries is the pointwise view.
pub proof fn lemma_view_entries(s: Seq<(String, Yaml)>)
    ensures
        view_entries(s).len() == s.len(),
        forall|i: int| 0 <= i < s.len() ==> #[trigger] view_entries(s)[i] == (s[i].0@, s[i].1.view()),
    decreases s,
{
    if s.len() > 0 {
        lemma_view_entries(s.drop_first());
    }
}

/// The predicate picking entries of a mapping that carry key `k`.
pub open spec fn key_is(k: Seq<char>) -> spec_fn((Seq<char>, YamlV)) -> bool {
    |e: (Seq<char>, YamlV)| e.0 == k
}

/// Whether mapping `m` has an entry with key `k`.
pub open spec fn has_key(m: Seq<(Seq<char>, YamlV)>, k: Seq<char>) -> bool {
    crate::search::has_match(m, key_is(k))
}

/// The value of the first entry of `m` with key `k`, if any.
pub open spec fn lookup(m: Seq<(Seq<char>, YamlV)>, k: Seq<char>) -> Option<YamlV> {
    if has_key(m, k) {
        Some(m[crate::search::first_index(m, key_is(k))].1)
    } else {
        None
    }
}

/// Insert-or-replace on an ordered mapping: a present key keeps its position
/// and gets the new value; an absent key is appended at the end.
pub open spec fn insert_val(m: Seq<(Seq<char>, YamlV)>, k: Seq<char>, v: YamlV) -> Seq<
    (Seq<char>, YamlV),
> {
    if has_key(m, k) {
        let i = crate::search::first_index(m, key_is(k));
        m.update(i, (m[i].0, v))
    } else {
        m.push((k, v))
    }
}

/// After an insert, looking the key up yields the inserted value; the mapping
/// keeps its length when the key was present and grows by one entry otherwise.
pub proof fn lemma_insert_same(m: Seq<(Seq<char>, YamlV)>, k: Seq<char>, v: YamlV)
    ensures
        lookup(insert_val(m, k, v), k) == Some(v),
        has_key(m, k) ==> insert_val(m, k, v).len() == m.len(),
        !has_key(m, k) ==> insert_val(m, k, v).len() == m.len() + 1,
{
    let m2 = insert_val(m, k, v);
    if has_key(m, k) {
        let i = crate::search::first_index(m, key_is(k));
        crate::search::lemma_first_index(m, key_is(k));
        assert(first_at_key(m2, k, i));
        crate::search::lemma_first_index(m2, key_is(k));
        crate::search::lemma_first_at_unique(
            m2,
            key_is(k),
            i,
            crate::search::first_index(m2, key_is(k)),
        );
    } else {
        crate::search::lemma_no_match(m, key_is(k));
        assert(first_at_key(m2, k, m.len() as int));
        crate::search::lemma_first_index(m2, key_is(k));
        crate::search::lemma_first_at_unique(
            m2,
            key_is(k),
            m.len() as int,
            crate::search::first_index(m2, key_is(k)),
        );
    }
}

/// Shorthand for "the first entry with key `k` stands at position `i`".
pub open spec fn first_at_key(m: Seq<(Seq<char>, YamlV)>, k: Seq<char>, i: int) -> bool {
    crate::search::first_at(m, key_is(k), i)
}

/// Inserting one key leaves every other key's presence and value alone.
pub proof fn lemma_insert_other(
    m: Seq<(Seq<char>, YamlV)>,
    k: Seq<char>,
    v: YamlV,
    k2: Seq<char>,
)
    requires
        k2 != k,
    ensures
        lookup(insert_val(m, k, v), k2) == lookup(m, k2),
        has_key(insert_val(m, k, v), k2) == has_key(m, k2),
{
    let m2 = insert_val(m, k, v);
    assert forall|j: int| 0 <= j < m.len() implies (#[trigger] m2[j]).0 == m[j].0 by {}
    if has_key(m, k2) {
        let i = crate::search::first_index(m, key_is(k2));
        crate::search::lemma_first_index(m, key_is(k2));
        assert(first_at_key(m2, k2, i));
        crate::search::lemma_first_index(m2, key_is(k2));
        crate::search::lemma_first_at_unique(
            m2,
            key_is(k2),
            i,
            crate::search::first_index(m2, key_is(k2)),
        );
        if has_key(m, k) {
            let ik = crate::search::first_index(m, key_is(k));
            crate::search::lemma_first_index(m, key_is(k));
            assert(i != ik);
            assert(m2[i] == m[i]);
        } else {
            assert(m2[i] == m[i]);
        }
    } else {
        crate::search::lemma_no_match(m, key_is(k2));
        if has_key(m2, k2) {
            let i2 = crate::search::first_index(m2, key_is(k2));
            crate::search::lemma_first_index(m2, key_is(k2));
            if i2 < m.len() {
                assert(m2[i2].0 == m[i2].0);
            }
            assert(false);
        }
    }
}

/// A key whose first entry stands at `i` looks up to that entry's value.
pub proof fn lemma_lookup_at(m: Seq<(Seq<char>, YamlV)>, k: Seq<char>, i: int)
    requires
        first_at_key(m, k, i),
    ensures
        has_key(m, k),
        lookup(m, k) == Some(m[i].1),
{
    assert(has_key(m, k));
    crate::search::lemma_first_index(m, key_is(k));
    crate::search::lemma_first_at_unique(
        m,
        key_is(k),
        i,
        crate::search::first_index(m, key_is(k)),
    );
}

/// A key that no entry carries looks up to nothing.
pub proof fn lemma_lookup_absent(m: Seq<(Seq<char>, YamlV)>, k: Seq<char>)
    requires
        forall|j: int| 0 <= j < m.len() ==> (#[trigger] m[j]).0 != k,
    ensures
        !has_key(m, k),
        lookup(m, k) is None,
{
    if has_key(m, k) {
        crate::search::lemma_first_index(m, key_is(k));
    }
}

/// Looks a key up in an ordered list of entries, returning a borrow of the
/// first value whose key matches.
pub fn map_get<'a>(entries: &'a Vec<(String, Yaml)>, key: &String) -> (r: Option<&'a Yaml>)
    ensures
        match r {
            Some(v) => lookup(view_entries(entries@), key@) == Some(v.view()),
            None => !has_key(view_entries(entries@), key@),
        },
{
    proof {
        lemma_view_entries(entries@);
    }
    let ghost vm = view_entries(entries@);
    let mut i: usize = 0;
    while i < entries.len()
        invariant
            0 <= i <= entries.len(),
            vm == view_entries(entries@),
            vm.len() == entries@.len(),
            forall|j: int| 0 <= j < entries@.len() ==> #[trigger] vm[j] == (
                entries@[j].0@,
                entries@[j].1.view(),
            ),
            forall|j: int| 0 <= j < i ==> (#[trigger] vm[j]).0 != key@,
        decreases entries.len() - i,
    {
        if entries[i].0 == *key {
            proof {
                assert(first_at_key(vm, key@, i as int));
                crate::search::lemma_first_index(vm, key_is(key@));
                crate::search::lemma_first_at_unique(
                    vm,
                    key_is(key@),
                    i as int,
                    crate::search::first_index(vm, key_is(key@)),
                );
            }
            return Some(&entries[i].1);
        }
        i += 1;
    }
    proof {
        if has_key(vm, key@) {
            crate::search::lemma_first_index(vm, key_is(key@));
        }
    }
    None
}

/// Insert-or-replace on the entry list backing a mapping node: a present key
/// keeps its position (and its own key string); an absent key is appended.
pub fn map_insert(entries: &mut Vec<(String, Yaml)>, key: String, value: Yaml)
    ensures
        view_entries(final(entries)@) == insert_val(view_entries(old(entries)@), key@, value@),
{
    proof {
        lemma_view_entries(old(entries)@);
    }
    let ghost vm = view_entries(old(entries)@);
    let mut i: usize = 0;
    while i < entries.len()
        invariant
            0 <= i <= entries.len(),
            entries@ == old(entries)@,
            vm == view_entries(entries@),
            vm.len() == entries@.len(),
            forall|j: int| 0 <= j < entries@.len() ==> #[trigger] vm[j] == (
                entries@[j].0@,
                entries@[j].1.view(),
            ),
            forall|j: int| 0 <= j < i ==> (#[trigger] vm[j]).0 != key@,
        decreases entries.len() - i,
    {
        if entries[i].0 == key {
            proof {
                assert(first_at_key(vm, key@, i as int));
                crate::search::lemma_first_index(vm, key_is(key@));
                crate::search::lemma_first_at_unique(
                    vm,
                    key_is(key@),
                    i as int,
                    crate::search::first_index(vm, key_is(key@)),
                );
            }
            let k0 = entries[i].0.clone();
            entries[i] = (k0, value);
            proof {
                lemma_view_entries(entries@);
                assert(view_entries(entries@) =~= insert_val(vm, key@, value@));
            }
            return ;
        }
        i += 1;
    }
    proof {
        if has_key(vm, key@) {
            crate::search::lemma_first_index(vm, key_is(key@));
        }
    }
    entries.push((key, value));
    proof {
        lemma_view_entries(entries@);
        assert(view_entries(entries@) =~= insert_val(vm, key@, value@));
    }
}

impl Clone for Yaml {
    /// Deep copy of a tree; the copy has the same view.
    #[verifier::loop_isolation(false)]
    fn clone(&self) -> (r: Yaml)
        ensures
            r.view() == self.view(),
        decreases *self,
    {
        match self {
            Yaml::Null => Yaml::Null,
            Yaml::Bool(b) => Yaml::Bool(*b),
            Yaml::Num(s) => Yaml::Num(s.clone()),
            Yaml::Str(s) => Yaml::Str(s.clone()),
            Yaml::List(xs) => {
                let mut out: Vec<Yaml> = Vec::new();
                let mut i: usize = 0;
                while i < xs.len()
                    invariant
                        i <= xs.len(),
                        out@.len() == i,
                        forall|j: int| 0 <= j < i ==> (#[trigger] out@[j]).view() == xs@[j].view(),
                    decreases xs.len() - i,
                {
                    proof {
                        assert(decreases_to!(*self => self->List_0));
                        assert(decreases_to!(self->List_0 => self->List_0@));
                        assert(decreases_to!(self->List_0@ => self->List_0@[i as int]));
                    }
                    out.push(xs[i].clone());
                    i += 1;
                }
                let r = Yaml::List(out);
                proof {
                    lemma_view_items(r->List_0@);
                    lemma_view_items(xs@);
                    assert(view_items(r->List_0@) =~= view_items(xs@));
                }
                r
            },
            Yaml::Mapping(es) => {
                let mut out: Vec<(String, Yaml)> = Vec::new();
                let mut i: usize = 0;
                while i < es.len()
                    invariant
                        i <= es.len(),
                        out@.len() == i,
                        forall|j: int| 0 <= j < i ==> (#[trigger] out@[j]).0@ == es@[j].0@
                            && out@[j].1.view() == es@[j].1.view(),
                    decreases es.len() - i,
                {
                    proof {
                        assert(decreases_to!(*self => self->Mapping_0));
                        assert(decreases_to!(self->Mapping_0 => self->Mapping_0@));
                        assert(decreases_to!(self->Mapping_0@ => self->Mapping_0@[i as int]));
                        assert(decreases_to!(self->Mapping_0@[i as int] => self->Mapping_0@[
                            i as int
                        ].1));
                    }
                    out.push((es[i].0.clone(), es[i].1.clone()));
                    i += 1;
                }
                let r = Yaml::Mapping(out);
                proof {
                    lemma_view_entries(r->Mapping_0@);
                    lemma_view_entries(es@);
                    assert(view_entries(r->Mapping_0@) =~= view_entries(es@));
                }
                r
            },
        }
    }
}

/// What parsing a text in the document format returns: a tree, or nothing
/// where the text is not well formed.  The result depends on the text alone.
pub uninterp spec fn yaml_parse_spec(text: Seq<char>) -> Option<YamlV>;

/// What serializing a tree to the document format returns.  The result
/// depends on the tree alone.
pub uninterp spec fn yaml_emit_spec(tree: YamlV) -> Option<Seq<char>>;

/// The view of an optional node.
pub open spec fn opt_yaml_view(r: Option<Yaml>) -> Option<YamlV> {
    match r {
        Some(y) => Some(y.view()),
        None => None,
    }
}

/// The view of an optional string.
pub open spec fn opt_string_view(r: Option<String>) -> Option<Seq<char>> {
    match r {
        Some(s) => Some(s@),
        None => None,
    }
}

#[verifier::external_type_specification]
#[verifier::external_body]
pub struct ExYamlValue(serde_yaml::Value);

#[verifier::external_type_specification]
#[verifier::external_body]
pub struct ExYamlMapping(serde_yaml::Mapping);

/// Relies on serde_yaml::Value's variants: rebuilds a parsed generic value as
/// the library's tree, keeping numbers in their textual form; a tagged value
/// has no counterpart here and yields None.
#[verifier::external_body]
fn value_to_yaml(v: serde_yaml::Value) -> Option<Yaml> {
    match v {
        serde_yaml::Value::Null => Some(Yaml::Null),
        serde_yaml::Value::Bool(b) => Some(Yaml::Bool(b)),
        serde_yaml::Value::Number(n) => Some(Yaml::Num(n.to_string())),
        serde_yaml::Value::String(s) => Some(Yaml::Str(s)),
        serde_yaml::Value::Sequence(xs) => Some(Yaml::List(values_to_yaml(xs)?)),
        serde_yaml::Value::Mapping(m) => Some(Yaml::Mapping(mapping_to_entries(m)?)),
        serde_yaml::Value::Tagged(_) => None,
    }
}

/// Relies on serde_yaml::Value::Sequence's contents: converts each element.
#[verifier::external_body]
fn values_to_yaml(xs: Vec<serde_yaml::Value>) -> Option<Vec<Yaml>> {
    xs.into_iter().map(value_to_yaml).collect()
}

/// Relies on serde_yaml::Mapping's iteration order (insertion order): each
/// entry's key must be a string; a non-string key yields None.
#[verifier::external_body]
fn mapping_to_entries(m: serde_yaml::Mapping) -> Option<Vec<(String, Yaml)>> {
    m.into_iter().map(
        |e: (serde_yaml::Value, serde_yaml::Value)| Some(
            (e.0.as_str()?.to_owned(), value_to_yaml(e.1)?),
        ),
    ).collect()
}

/// Relies on serde_yaml::Value's constructors: rebuilds a tree of the library
/// as a generic value, so that serde_yaml can serialize it.
#[verifier::external_body]
fn yaml_to_value(y: &Yaml) -> serde_yaml::Value {
    match y {
        Yaml::Null => serde_yaml::Value::Null,
        Yaml::Bool(b) => serde_yaml::Value::Bool(*b),
        Yaml::Num(s) => serde_yaml::from_str::<serde_yaml::Value>(s).unwrap_or(
            serde_yaml::Value::Null,
        ),
        Yaml::Str(s) => serde_yaml::Value::String(s.clone()),
        Yaml::List(xs) => serde_yaml::Value::Sequence(xs.iter().map(yaml_to_value).collect()),
        Yaml::Mapping(es) => serde_yaml::Value::Mapping(entries_to_mapping(es)),
    }
}

/// Relies on serde_yaml::Mapping keeping insertion order: rebuilds the entry
/// list as a generic mapping with string keys.
#[verifier::external_body]
fn entries_to_mapping(es: &Vec<(String, Yaml)>) -> serde_yaml::Mapping {
    es.iter().map(
        |e: &(String, Yaml)| (serde_yaml::Value::String(e.0.clone()), yaml_to_value(&e.1)),
    ).collect()
}

/// Relies on serde_yaml::from_str: parses the on-disk document format into a
/// generic value; the result is a function of the text alone.
#[verifier::external_body]
pub fn yaml_parse(text: &str) -> (r: Option<Yaml>)
    ensures
        opt_yaml_view(r) == yaml_parse_spec(text@),
{
    match serde_yaml::from_str::<serde_yaml::Value>(text) {
        Ok(v) => value_to_yaml(v),
        Err(_) => None,
    }
}

/// Relies on serde_yaml::to_string: serializes a generic value to the
/// on-disk document format; the result is a function of the tree alone.
#[verifier::external_body]
pub fn yaml_emit(tree: &Yaml) -> (r: Option<String>)
    ensures
        opt_string_view(r) == yaml_emit_spec(tree@),
{
    serde_yaml::to_string(&yaml_to_value(tree)).ok()
}

} // verus!
