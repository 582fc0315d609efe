//! Forms: fields kept in the order they were first added, one per key;
//! trimming, validation, and the problems found.

use vstd::prelude::*;

use indexmap::IndexMap;

use crate::article_editor::{field_problem, Field};
use crate::text::{str_trim, trimmed};

verus! {

// ------ Problem ------

/// Something wrong with a form: a field that does not pass its check, or an
/// error reported by the server.
#[derive(Clone)]
pub enum Problem {
    InvalidField { field_key: &'static str, message: String },
    ServerError { message: String },
}

/// A problem seen through the texts it holds.
pub enum ProblemView {
    InvalidField { field_key: Seq<char>, message: Seq<char> },
    ServerError { message: Seq<char> },
}

impl View for Problem {
    type V = ProblemView;

    open spec fn view(&self) -> ProblemView {
        match self {
            Problem::InvalidField { field_key, message } => ProblemView::InvalidField {
                field_key: field_key@,
                message: message@,
            },
            Problem::ServerError { message } => ProblemView::ServerError { message: message@ },
        }
    }
}

/// The message that a problem carries.
pub open spec fn problem_message(problem: ProblemView) -> Seq<char> {
    match problem {
        ProblemView::InvalidField { message, .. } => message,
        ProblemView::ServerError { message } => message,
    }
}

/// An optional problem, seen through its view.
pub open spec fn option_problem_view(problem: Option<Problem>) -> Option<ProblemView> {
    match problem {
        Some(p) => Some(p@),
        None => None,
    }
}

impl Problem {
    pub fn new_invalid_field(field_key: &'static str, message: &str) -> (problem: Problem)
        ensures
            problem@ == (ProblemView::InvalidField { field_key: field_key@, message: message@ }),
    {
        Problem::InvalidField { field_key, message: message.to_owned() }
    }

    pub fn new_server_error(message: &str) -> (problem: Problem)
        ensures
            problem@ == (ProblemView::ServerError { message: message@ }),
    {
        Problem::ServerError { message: message.to_owned() }
    }

    pub fn message(&self) -> (message: &str)
        ensures
            message@ == problem_message(self@),
    {
        match self {
            Problem::InvalidField { message, .. } => message.as_str(),
            Problem::ServerError { message } => message.as_str(),
        }
    }
}

// ------ FormField ------

/// A field of a form: it has a key, holds a text and can check that text.
pub trait FormField: Sized + Clone {
    /// The key under which the field is stored in its form.
    spec fn spec_key(&self) -> Seq<char>;

    /// The text that the field holds.
    spec fn spec_value(&self) -> Seq<char>;

    /// What is wrong with the field, if anything.
    spec fn spec_problem(&self) -> Option<ProblemView>;

    fn value(&self) -> (value: &str)
        ensures
            value@ == self.spec_value(),
    ;

    /// The text of the field, to be changed in place; the key stays.
    fn value_mut(&mut self) -> (value: &mut String)
        ensures
            value@ == old(self).spec_value(),
            final(self).spec_key() == old(self).spec_key(),
            final(self).spec_value() == final(value)@,
    ;

    fn key(&self) -> (key: &'static str)
        ensures
            key@ == self.spec_key(),
    ;

    fn validate(&self) -> (problem: Option<Problem>)
        ensures
            option_problem_view(problem) == self.spec_problem(),
    ;
}

// ------ the ordered map that holds a form's fields ------

/// The ordered map of the `indexmap` crate, in which a form keeps its fields.
#[verifier::external_type_specification]
#[verifier::external_body]
#[verifier::reject_recursive_types(K)]
#[verifier::reject_recursive_types(V)]
#[verifier::reject_recursive_types(S)]
pub struct ExIndexMap<K, V, S>(IndexMap<K, V, S>);

/// What an `IndexMap` of fields holds: its (key, field) pairs in the map's
/// order, each key and field taken by its view. The order is that of first
/// insertion and does not depend on the hasher.
pub uninterp spec fn index_map_entries(map: IndexMap<&'static str, Field>) -> Seq<(Seq<char>, (Seq<char>, Seq<char>))>;

/// Whether some pair of `entries` has the key `key`.
pub open spec fn entries_have_key<V>(entries: Seq<(Seq<char>, V)>, key: Seq<char>) -> bool {
    exists|i: int| 0 <= i < entries.len() && #[trigger] entries[i].0 == key
}

/// No key occurs twice in `entries`.
pub open spec fn keys_distinct<V>(entries: Seq<(Seq<char>, V)>) -> bool {
    forall|i: int, j: int|
        0 <= i < entries.len() && 0 <= j < entries.len() && i != j ==> #[trigger] entries[i].0
            != #[trigger] entries[j].0
}

/// `entries` after storing `value` under `key`: a pair with that key keeps its
/// place and takes the new value; otherwise the pair goes last.
pub open spec fn upserted<V>(entries: Seq<(Seq<char>, V)>, key: Seq<char>, value: V) -> Seq<(Seq<char>, V)> {
    if entries_have_key(entries, key) {
        let i = choose|i: int| 0 <= i < entries.len() && #[trigger] entries[i].0 == key;
        entries.update(i, (key, value))
    } else {
        entries.push((key, value))
    }
}

/// `IndexMap::new`: an empty map.
#[verifier::external_body]
fn index_map_new() -> (map: IndexMap<&'static str, Field>)
    ensures
        index_map_entries(map) == Seq::<(Seq<char>, (Seq<char>, Seq<char>))>::empty(),
{
    IndexMap::new()
}

/// `IndexMap::len`: the number of pairs.
#[verifier::external_body]
fn index_map_len(map: &IndexMap<&'static str, Field>) -> (len: usize)
    ensures
        len == index_map_entries(*map).len(),
{
    map.len()
}

/// `IndexMap::get_index`: the pair at a position, if there is one.
#[verifier::external_body]
fn index_map_get_index<'a>(map: &'a IndexMap<&'static str, Field>, index: usize) -> (entry: Option<(&'static str, &'a Field)>)
    ensures
        entry is Some <==> index < index_map_entries(*map).len(),
        entry matches Some(e) ==> (e.0@, e.1@) == index_map_entries(*map)[index as int],
{
    map.get_index(index).map(|(key, field)| (*key, field))
}

/// `IndexMap::insert`: an equal key keeps its place and gets the new field;
/// a new key goes last. Keys stay distinct.
#[verifier::external_body]
fn index_map_insert(map: &mut IndexMap<&'static str, Field>, key: &'static str, field: Field)
    ensures
        index_map_entries(*final(map)) == upserted(index_map_entries(*old(map)), key@, field@),
        keys_distinct(index_map_entries(*final(map))),
{
    map.insert(key, field);
}

/// The entries of a form's map are well formed: each field is stored under
/// its own key, and no key occurs twice.
pub open spec fn entries_wf(entries: Seq<(Seq<char>, (Seq<char>, Seq<char>))>) -> bool {
    &&& keys_distinct(entries)
    &&& forall|i: int| 0 <= i < entries.len() ==> #[trigger] entries[i].0 == entries[i].1.0
}

/// The fields of well-formed entries, in order.
pub open spec fn entries_fields(entries: Seq<(Seq<char>, (Seq<char>, Seq<char>))>) -> Seq<(Seq<char>, Seq<char>)> {
    entries.map_values(|e: (Seq<char>, (Seq<char>, Seq<char>))| e.1)
}

// ------ what a form is, as a sequence of fields ------

/// Whether a field with key `key` is among `fields`.
pub open spec fn has_field(fields: Seq<(Seq<char>, Seq<char>)>, key: Seq<char>) -> bool {
    exists|i: int| 0 <= i < fields.len() && #[trigger] fields[i].0 == key
}

/// No two of `fields` share a key.
pub open spec fn field_keys_distinct(fields: Seq<(Seq<char>, Seq<char>)>) -> bool {
    forall|i: int, j: int|
        0 <= i < fields.len() && 0 <= j < fields.len() && i != j ==> #[trigger] fields[i].0
            != #[trigger] fields[j].0
}

/// `fields` after adding `field`: the field with the same key, if any, is
/// replaced where it stands; otherwise `field` goes last.
pub open spec fn upsert(fields: Seq<(Seq<char>, Seq<char>)>, field: (Seq<char>, Seq<char>)) -> Seq<(Seq<char>, Seq<char>)> {
    if has_field(fields, field.0) {
        let i = choose|i: int| 0 <= i < fields.len() && #[trigger] fields[i].0 == field.0;
        fields.update(i, field)
    } else {
        fields.push(field)
    }
}

/// `fields` after adding each of `added` in turn.
pub open spec fn upsert_all(fields: Seq<(Seq<char>, Seq<char>)>, added: Seq<(Seq<char>, Seq<char>)>) -> Seq<(Seq<char>, Seq<char>)>
    decreases added.len(),
{
    if added.len() == 0 {
        fields
    } else {
        upsert(upsert_all(fields, added.drop_last()), added.last())
    }
}

/// Each field with its text trimmed.
pub open spec fn trim_all(fields: Seq<(Seq<char>, Seq<char>)>) -> Seq<(Seq<char>, Seq<char>)> {
    fields.map_values(|f: (Seq<char>, Seq<char>)| (f.0, trimmed(f.1)))
}

/// The problems of the fields, in the order of the fields.
pub open spec fn problems(fields: Seq<(Seq<char>, Seq<char>)>) -> Seq<ProblemView> {
    fields.filter_map(|f: (Seq<char>, Seq<char>)| field_problem(f))
}

/// The field with key `key` among `fields`, if there is one.
pub open spec fn field_with_key(fields: Seq<(Seq<char>, Seq<char>)>, key: Seq<char>) -> Option<(Seq<char>, Seq<char>)> {
    if has_field(fields, key) {
        Some(fields[choose|i: int| 0 <= i < fields.len() && #[trigger] fields[i].0 == key])
    } else {
        None
    }
}

/// After a field is added to a form, the form holds exactly that field
/// under its key, every other key reads as before, keys stay distinct, and the
/// form grows by one field exactly when the key was new.
pub proof fn lemma_upsert_reads_back(fields: Seq<(Seq<char>, Seq<char>)>, field: (Seq<char>, Seq<char>), other: Seq<char>)
    requires
        field_keys_distinct(fields),
    ensures
        field_keys_distinct(upsert(fields, field)),
        field_with_key(upsert(fields, field), field.0) == Some(field),
        other != field.0 ==> field_with_key(upsert(fields, field), other) == field_with_key(fields, other),
        upsert(fields, field).len() == if has_field(fields, field.0) { fields.len() } else { fields.len() + 1 },
{
    let after = upsert(fields, field);
    let k = if has_field(fields, field.0) {
        choose|i: int| 0 <= i < fields.len() && #[trigger] fields[i].0 == field.0
    } else {
        fields.len() as int
    };
    assert(after[k] == field);
    assert forall|i: int, j: int|
        0 <= i < after.len() && 0 <= j < after.len() && i != j implies #[trigger] after[i].0
            != #[trigger] after[j].0 by {
        if i != k && j != k {
            assert(after[i] == fields[i] && after[j] == fields[j]);
        } else if i == k {
            assert(after[j] == fields[j]);
            if has_field(fields, field.0) {
                assert(fields[k].0 == field.0);
            }
        } else {
            assert(after[i] == fields[i]);
            if has_field(fields, field.0) {
                assert(fields[k].0 == field.0);
            }
        }
    }
    assert(has_field(after, field.0));
    let m = choose|i: int| 0 <= i < after.len() && #[trigger] after[i].0 == field.0;
    assert(m == k);
    if other != field.0 {
        if has_field(fields, other) {
            let a = choose|i: int| 0 <= i < fields.len() && #[trigger] fields[i].0 == other;
            assert(after[a] == fields[a]);
            assert(has_field(after, other));
            let b = choose|i: int| 0 <= i < after.len() && #[trigger] after[i].0 == other;
            assert(b == a);
        } else if has_field(after, other) {
            let b = choose|i: int| 0 <= i < after.len() && #[trigger] after[i].0 == other;
            assert(after[b] == fields[b]);
        }
    }
}

/// Trimming the fields of a form that is already trimmed changes nothing.
pub proof fn lemma_trim_all_idempotent(fields: Seq<(Seq<char>, Seq<char>)>)
    ensures
        trim_all(trim_all(fields)) == trim_all(fields),
{
    assert forall|i: int| 0 <= i < fields.len() implies #[trigger] trim_all(trim_all(fields))[i]
        == trim_all(fields)[i] by {
        crate::text::lemma_trimmed_idempotent(fields[i].1);
    }
    assert(trim_all(trim_all(fields)) =~= trim_all(fields));
}

/// A form has no problem exactly when none of its fields has one.
pub proof fn lemma_no_problems(fields: Seq<(Seq<char>, Seq<char>)>)
    ensures
        problems(fields).len() == 0 <==> forall|i: int| 0 <= i < fields.len() ==> #[trigger] field_problem(fields[i]) is None,
    decreases fields.len(),
{
    if fields.len() > 0 {
        lemma_no_problems(fields.drop_last());
        let rest = fields.drop_last();
        if forall|i: int| 0 <= i < fields.len() ==> #[trigger] field_problem(fields[i]) is None {
            assert forall|i: int| 0 <= i < rest.len() implies #[trigger] field_problem(rest[i]) is None by {
                assert(rest[i] == fields[i]);
            }
        }
        if problems(fields).len() == 0 {
            assert forall|i: int| 0 <= i < fields.len() implies #[trigger] field_problem(fields[i]) is None by {
                if i < rest.len() {
                    assert(rest[i] == fields[i]);
                    assert(field_problem(rest[i]) is None);
                }
            }
        }
    }
}

proof fn lemma_entries_fields_keys(entries: Seq<(Seq<char>, (Seq<char>, Seq<char>))>, key: Seq<char>)
    requires
        entries_wf(entries),
    ensures
        entries_have_key(entries, key) == has_field(entries_fields(entries), key),
        field_keys_distinct(entries_fields(entries)),
{
    let fields = entries_fields(entries);
    if entries_have_key(entries, key) {
        let i = choose|i: int| 0 <= i < entries.len() && #[trigger] entries[i].0 == key;
        assert(fields[i].0 == key);
    }
    if has_field(fields, key) {
        let i = choose|i: int| 0 <= i < fields.len() && #[trigger] fields[i].0 == key;
        assert(entries[i].0 == key);
    }
    assert forall|i: int, j: int|
        0 <= i < fields.len() && 0 <= j < fields.len() && i != j implies #[trigger] fields[i].0
            != #[trigger] fields[j].0 by {
        assert(entries[i].0 != entries[j].0);
    }
}

/// Storing a field under its own key in well-formed entries keeps them well
/// formed, and adds the field to their fields as `upsert` does.
proof fn lemma_insert_own_key(entries: Seq<(Seq<char>, (Seq<char>, Seq<char>))>, field: (Seq<char>, Seq<char>))
    requires
        entries_wf(entries),
    ensures
        keys_distinct(upserted(entries, field.0, field)) ==> entries_wf(upserted(entries, field.0, field)),
        entries_fields(upserted(entries, field.0, field)) == upsert(entries_fields(entries), field),
{
    let fields = entries_fields(entries);
    lemma_entries_fields_keys(entries, field.0);
    let after = upserted(entries, field.0, field);
    if entries_have_key(entries, field.0) {
        let i = choose|i: int| 0 <= i < entries.len() && #[trigger] entries[i].0 == field.0;
        let j = choose|j: int| 0 <= j < fields.len() && #[trigger] fields[j].0 == field.0;
        assert(fields[i].0 == field.0);
        assert(i == j);
        assert(entries_fields(after) =~= fields.update(j, field));
    } else {
        assert(entries_fields(after) =~= fields.push(field));
    }
}

// ------ Form ------

/// A form: its fields, one per key, in the order they were first added.
pub struct Form(IndexMap<&'static str, Field>);

impl Form {
    #[verifier::type_invariant]
    spec fn inv(self) -> bool {
        entries_wf(index_map_entries(self.0))
    }

    /// The form's fields, each seen as (key, text), in order.
    pub closed spec fn fields(self) -> Seq<(Seq<char>, Seq<char>)> {
        entries_fields(index_map_entries(self.0))
    }
}

impl View for Form {
    type V = Seq<(Seq<char>, Seq<char>)>;

    open spec fn view(&self) -> Seq<(Seq<char>, Seq<char>)> {
        self.fields()
    }
}

impl Form {
    /// A form holding `fields`, added one after the other.
    pub fn new(fields: Vec<Field>) -> (form: Form)
        ensures
            form@ == upsert_all(Seq::empty(), fields@.map_values(|f: Field| f@)),
            field_keys_distinct(form@),
    {
        let ghost added = fields@.map_values(|f: Field| f@);
        let mut map = index_map_new();
        proof {
            assert(entries_fields(index_map_entries(map)) =~= Seq::empty());
        }
        for field in it: fields
            invariant
                added == it.seq().map_values(|f: Field| f@),
                entries_wf(index_map_entries(map)),
                entries_fields(index_map_entries(map)) == upsert_all(
                    Seq::empty(),
                    added.take(it.index() as int),
                ),
        {
            let ghost before = index_map_entries(map);
            let ghost i = it.index() as int;
            let key = field.key();
            proof {
                lemma_insert_own_key(before, field@);
                assert(added.take(i + 1).drop_last() =~= added.take(i));
                assert(added.take(i + 1).last() == field@);
            }
            index_map_insert(&mut map, key, field);
        }
        proof {
            assert(added.take(added.len() as int) =~= added);
            lemma_entries_fields_keys(index_map_entries(map), Seq::empty());
        }
        Form(map)
    }

    /// A copy of the form in which every field's text is trimmed.
    pub fn trim_fields(&self) -> (trimmed_form: TrimmedForm)
        ensures
            trimmed_form@ == trim_all(self@),
            field_keys_distinct(trimmed_form@),
    {
        proof {
            use_type_invariant(self);
        }
        let ghost source = index_map_entries(self.0);
        let len = index_map_len(&self.0);
        let mut map = index_map_new();
        let mut i: usize = 0;
        while i < len
            invariant
                source == index_map_entries(self.0),
                entries_wf(source),
                len == source.len(),
                i <= len,
                entries_wf(index_map_entries(map)),
                index_map_entries(map) =~= source.take(i as int).map_values(
                    |e: (Seq<char>, (Seq<char>, Seq<char>))| (e.0, (e.1.0, trimmed(e.1.1))),
                ),
            decreases len - i,
        {
            let entry = index_map_get_index(&self.0, i);
            let (key, field) = entry.unwrap();
            let value = str_trim(field.value()).to_owned();
            let trimmed_field = field.with_value(value);
            proof {
                let before = index_map_entries(map);
                assert(key@ == source[i as int].0);
                assert(field@ == source[i as int].1);
                if entries_have_key(before, key@) {
                    let j = choose|j: int| 0 <= j < before.len() && #[trigger] before[j].0 == key@;
                    assert(before[j].0 == source[j].0);
                    assert(source[j].0 != source[i as int].0);
                }
            }
            index_map_insert(&mut map, key, trimmed_field);
            proof {
                assert(source.take(i + 1).drop_last() =~= source.take(i as int));
            }
            i = i + 1;
        }
        proof {
            assert(source.take(len as int) =~= source);
            assert(entries_fields(index_map_entries(map)) =~= trim_all(entries_fields(source)));
            lemma_entries_fields_keys(index_map_entries(map), Seq::empty());
        }
        TrimmedForm(map)
    }

    /// The form's fields, in order.
    pub fn iter_fields(&self) -> (fields: Vec<&Field>)
        ensures
            fields@.map_values(|f: &Field| f@) == self@,
    {
        proof {
            use_type_invariant(self);
        }
        let len = index_map_len(&self.0);
        let mut fields: Vec<&Field> = Vec::new();
        let mut i: usize = 0;
        while i < len
            invariant
                len == index_map_entries(self.0).len(),
                i <= len,
                fields@.map_values(|f: &Field| f@) =~= self@.take(i as int),
            decreases len - i,
        {
            let (_, field) = index_map_get_index(&self.0, i).unwrap();
            proof {
                assert(field@ == self@[i as int]);
                assert(self@.take(i + 1) =~= self@.take(i as int).push(field@));
            }
            fields.push(field);
            proof {
                assert(fields@.map_values(|f: &Field| f@) =~= self@.take(i + 1));
            }
            i = i + 1;
        }
        proof {
            assert(self@.take(len as int) =~= self@);
        }
        fields
    }

    /// Adds `field`: a field with the same key is replaced where it stands,
    /// otherwise `field` goes last.
    pub fn upsert_field(&mut self, field: Field)
        ensures
            final(self)@ == upsert(old(self)@, field@),
            field_keys_distinct(final(self)@),
    {
        proof {
            use_type_invariant(&*self);
        }
        let key = field.key();
        let mut map = index_map_new();
        std::mem::swap(&mut map, &mut self.0);
        proof {
            lemma_insert_own_key(index_map_entries(map), field@);
        }
        index_map_insert(&mut map, key, field);
        proof {
            lemma_entries_fields_keys(index_map_entries(map), Seq::empty());
        }
        self.0 = map;
    }
}

// ------ TrimmedForm ------

/// A form whose texts have been trimmed, ready to be checked.
pub struct TrimmedForm(IndexMap<&'static str, Field>);

impl TrimmedForm {
    #[verifier::type_invariant]
    spec fn inv(self) -> bool {
        entries_wf(index_map_entries(self.0))
    }

    /// The form's fields, each seen as (key, text), in order.
    pub closed spec fn fields(self) -> Seq<(Seq<char>, Seq<char>)> {
        entries_fields(index_map_entries(self.0))
    }
}

impl View for TrimmedForm {
    type V = Seq<(Seq<char>, Seq<char>)>;

    open spec fn view(&self) -> Seq<(Seq<char>, Seq<char>)> {
        self.fields()
    }
}

/// The problems, seen through their views.
pub open spec fn problem_views(problems: Seq<Problem>) -> Seq<ProblemView> {
    problems.map_values(|p: Problem| p@)
}

impl TrimmedForm {
    /// Checks every field: the form is valid when no field has a problem;
    /// otherwise all the problems are returned, in the order of the fields.
    pub fn validate(self) -> (result: Result<ValidForm, Vec<Problem>>)
        ensures
            result is Ok <==> problems(self@).len() == 0,
            result matches Ok(valid) ==> valid@ == self@,
            result matches Err(found) ==> problem_views(found@) == problems(self@),
    {
        proof {
            use_type_invariant(&self);
        }
        let len = index_map_len(&self.0);
        let mut found: Vec<Problem> = Vec::new();
        let mut i: usize = 0;
        while i < len
            invariant
                len == index_map_entries(self.0).len(),
                i <= len,
                problem_views(found@) =~= problems(self@.take(i as int)),
            decreases len - i,
        {
            let (_, field) = index_map_get_index(&self.0, i).unwrap();
            let problem = field.validate();
            proof {
                assert(self@.take(i + 1).drop_last() =~= self@.take(i as int));
                assert(self@.take(i + 1).last() == field@);
            }
            match problem {
                Some(p) => {
                    found.push(p);
                },
                None => {},
            }
            i = i + 1;
        }
        proof {
            assert(self@.take(len as int) =~= self@);
        }
        if found.len() == 0 {
            Ok(ValidForm(self.0))
        } else {
            Err(found)
        }
    }
}

// ------ ValidForm ------

/// A form in which no field has a problem.
pub struct ValidForm(IndexMap<&'static str, Field>);

impl ValidForm {
    #[verifier::type_invariant]
    spec fn inv(self) -> bool {
        entries_wf(index_map_entries(self.0))
    }

    /// The form's fields, each seen as (key, text), in order.
    pub closed spec fn fields(self) -> Seq<(Seq<char>, Seq<char>)> {
        entries_fields(index_map_entries(self.0))
    }
}

impl View for ValidForm {
    type V = Seq<(Seq<char>, Seq<char>)>;

    open spec fn view(&self) -> Seq<(Seq<char>, Seq<char>)> {
        self.fields()
    }
}

impl ValidForm {
    /// The keys and fields of the form, in order.
    pub fn iter_keys_and_fields(&self) -> (entries: Vec<(&'static str, &Field)>)
        ensures
            field_keys_distinct(self@),
            entries@.len() == self@.len(),
            forall|i: int|
                0 <= i < entries@.len() ==> (#[trigger] entries@[i]).0@ == self@[i].0
                    && entries@[i].1@ == self@[i],
    {
        proof {
            use_type_invariant(self);
            lemma_entries_fields_keys(index_map_entries(self.0), Seq::empty());
        }
        let len = index_map_len(&self.0);
        let mut entries: Vec<(&'static str, &Field)> = Vec::new();
        let mut i: usize = 0;
        while i < len
            invariant
                len == index_map_entries(self.0).len(),
                entries_wf(index_map_entries(self.0)),
                i <= len,
                entries@.len() == i,
                forall|j: int|
                    0 <= j < i ==> (#[trigger] entries@[j]).0@ == self@[j].0 && entries@[j].1@
                        == self@[j],
            decreases len - i,
        {
            let (key, field) = index_map_get_index(&self.0, i).unwrap();
            proof {
                let entries = index_map_entries(self.0);
                assert(entries[i as int].0 == entries[i as int].1.0);
                assert(field@ == self@[i as int]);
                assert(key@ == self@[i as int].0);
            }
            entries.push((key, field));
            i = i + 1;
        }
        entries
    }
}

} // verus!
