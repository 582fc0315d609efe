//! The body sent to register a user: the form's keys and texts, in order,
//! under `user`.

use vstd::prelude::*;

use indexmap::IndexMap;

use crate::form::{keys_distinct, upserted, FormField, ValidForm as EntityValidForm};

verus! {

/// What an `IndexMap` from keys to texts holds: its (key, text) pairs in the
/// map's order, each taken by its view. The order is that of first insertion
/// and does not depend on the hasher.
pub uninterp spec fn text_map_entries(map: IndexMap<&'static str, String>) -> Seq<(Seq<char>, Seq<char>)>;

/// `IndexMap::new`: an empty map.
#[verifier::external_body]
fn text_map_new() -> (map: IndexMap<&'static str, String>)
    ensures
        text_map_entries(map) == Seq::<(Seq<char>, Seq<char>)>::empty(),
{
    IndexMap::new()
}

/// `IndexMap::insert`: an equal key keeps its place and gets the new text; a
/// new key goes last. Keys stay distinct.
#[verifier::external_body]
fn text_map_insert(map: &mut IndexMap<&'static str, String>, key: &'static str, text: String)
    ensures
        text_map_entries(*final(map)) == upserted(text_map_entries(*old(map)), key@, text@),
        keys_distinct(text_map_entries(*final(map))),
{
    map.insert(key, text);
}

/// The register request's body: each key of the form with its text, in the
/// order of the form. It is written out as `{"user": {key: text, ...}}`.
pub struct ValidForm {
    pub user: IndexMap<&'static str, String>,
}

impl ValidForm {
    pub fn new(form: &EntityValidForm) -> (encoder: ValidForm)
        ensures
            text_map_entries(encoder.user) == form@,
    {
        let entries = form.iter_keys_and_fields();
        let mut user = text_map_new();
        let mut i: usize = 0;
        while i < entries.len()
            invariant
                entries@.len() == form@.len(),
                forall|j: int|
                    0 <= j < entries@.len() ==> (#[trigger] entries@[j]).0@ == form@[j].0
                        && entries@[j].1@ == form@[j],
                crate::form::field_keys_distinct(form@),
                i <= entries@.len(),
                text_map_entries(user) =~= form@.take(i as int),
            decreases entries@.len() - i,
        {
            let (key, field) = entries[i];
            assert(entries@[i as int].1@ == form@[i as int]);
            proof {
                let before = text_map_entries(user);
                if crate::form::entries_have_key(before, key@) {
                    let j = choose|j: int| 0 <= j < before.len() && #[trigger] before[j].0 == key@;
                    assert(form@[j].0 == form@[i as int].0);
                }
            }
            text_map_insert(&mut user, key, field.value().to_owned());
            i = i + 1;
        }
        proof {
            assert(form@.take(entries@.len() as int) =~= form@);
        }
        ValidForm { user }
    }
}

} // verus!
