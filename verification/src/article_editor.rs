//! The article editor's form: its fields and how each one is checked.

use vstd::prelude::*;

use crate::form::{has_field, lemma_no_problems, problems, upsert, upsert_all, Form, FormField, Problem, ProblemView};

verus! {

/// A field of the article editor, holding the text typed into it.
#[derive(Clone)]
pub enum Field {
    Title(String),
    Description(String),
    Body(String),
    Tags(String),
}

/// The key under which a field is stored in its form.
pub open spec fn field_key(field: Field) -> Seq<char> {
    match field {
        Field::Title(_) => "title"@,
        Field::Description(_) => "description"@,
        Field::Body(_) => "body"@,
        Field::Tags(_) => "tags"@,
    }
}

/// The text held by a field.
pub open spec fn field_value(field: Field) -> Seq<char> {
    match field {
        Field::Title(v) => v@,
        Field::Description(v) => v@,
        Field::Body(v) => v@,
        Field::Tags(v) => v@,
    }
}

impl View for Field {
    /// A field is seen as its key and its text.
    type V = (Seq<char>, Seq<char>);

    open spec fn view(&self) -> (Seq<char>, Seq<char>) {
        (field_key(*self), field_value(*self))
    }
}

/// What is wrong with a field, seen as (key, text): the title and the body
/// must not be blank; the description and the tags may be.
pub open spec fn field_problem(field: (Seq<char>, Seq<char>)) -> Option<ProblemView> {
    if field.0 == "title"@ && field.1.len() == 0 {
        Some(ProblemView::InvalidField { field_key: "title"@, message: "title can't be blank"@ })
    } else if field.0 == "body"@ && field.1.len() == 0 {
        Some(ProblemView::InvalidField { field_key: "body"@, message: "body can't be blank"@ })
    } else {
        None
    }
}

/// The four keys of the article editor are distinct texts.
pub proof fn lemma_field_keys_distinct()
    ensures
        "title"@ != "description"@,
        "title"@ != "body"@,
        "title"@ != "tags"@,
        "description"@ != "body"@,
        "description"@ != "tags"@,
        "body"@ != "tags"@,
{
    reveal_strlit("title");
    reveal_strlit("description");
    reveal_strlit("body");
    reveal_strlit("tags");
    assert("title"@[0] != "description"@[0]);
    assert("title"@[0] != "body"@[0]);
    assert("title"@[1] != "tags"@[1]);
    assert("description"@[0] != "body"@[0]);
    assert("description"@[0] != "tags"@[0]);
    assert("body"@[0] != "tags"@[0]);
}

/// Only a blank title or a blank body is a problem: a field has one exactly
/// when its key is "title" or "body" and its text is empty, and the problem
/// names that key and says it can't be blank. Whatever the description or the
/// tags hold, they have none.
pub proof fn lemma_only_blank_title_or_body_is_a_problem(field: (Seq<char>, Seq<char>))
    ensures
        field_problem(field) is Some <==> ((field.0 == "title"@ || field.0 == "body"@) && field.1.len() == 0),
        (field.0 == "title"@ && field.1.len() == 0) ==> field_problem(field) == Some(
            ProblemView::InvalidField { field_key: "title"@, message: "title can't be blank"@ },
        ),
        (field.0 == "body"@ && field.1.len() == 0) ==> field_problem(field) == Some(
            ProblemView::InvalidField { field_key: "body"@, message: "body can't be blank"@ },
        ),
        (field.0 == "description"@ || field.0 == "tags"@) ==> field_problem(field) is None,
{
    lemma_field_keys_distinct();
}

/// The description and the tags of an article never have a problem; the
/// title and the body have one exactly when they are empty.
pub proof fn lemma_article_field_problems(field: Field)
    ensures
        (field is Description || field is Tags) ==> field.spec_problem() is None,
        (field is Title || field is Body) ==> (field.spec_problem() is Some <==> field.spec_value().len() == 0),
{
    lemma_only_blank_title_or_body_is_a_problem(field@);
}

/// A form of the article editor is valid exactly when every title and body
/// in it holds some text: what the description and the tags hold never makes
/// it invalid.
pub proof fn lemma_form_valid_iff_title_and_body_filled(fields: Seq<(Seq<char>, Seq<char>)>)
    ensures
        problems(fields).len() == 0 <==> forall|i: int|
            0 <= i < fields.len() && (#[trigger] fields[i].0 == "title"@ || fields[i].0 == "body"@) ==> fields[i].1.len() > 0,
{
    lemma_no_problems(fields);
    assert forall|i: int| 0 <= i < fields.len() implies (field_problem(fields[i]) is None <==> !((fields[i].0 == "title"@ || fields[i].0
        == "body"@) && fields[i].1.len() == 0)) by {
        lemma_only_blank_title_or_body_is_a_problem(fields[i]);
    }
}

impl Field {
    /// The same kind of field, holding `value`.
    pub fn with_value(&self, value: String) -> (field: Field)
        ensures
            field@ == (self@.0, value@),
    {
        match self {
            Field::Title(_) => Field::Title(value),
            Field::Description(_) => Field::Description(value),
            Field::Body(_) => Field::Body(value),
            Field::Tags(_) => Field::Tags(value),
        }
    }
}

impl FormField for Field {
    open spec fn spec_key(&self) -> Seq<char> {
        field_key(*self)
    }

    open spec fn spec_value(&self) -> Seq<char> {
        field_value(*self)
    }

    open spec fn spec_problem(&self) -> Option<ProblemView> {
        field_problem(self@)
    }

    fn value(&self) -> (value: &str) {
        match self {
            Field::Title(value) => value.as_str(),
            Field::Description(value) => value.as_str(),
            Field::Body(value) => value.as_str(),
            Field::Tags(value) => value.as_str(),
        }
    }

    fn value_mut(&mut self) -> (value: &mut String) {
        match self {
            Field::Title(value) => value,
            Field::Description(value) => value,
            Field::Body(value) => value,
            Field::Tags(value) => value,
        }
    }

    fn key(&self) -> (key: &'static str) {
        match self {
            Field::Title(_) => "title",
            Field::Description(_) => "description",
            Field::Body(_) => "body",
            Field::Tags(_) => "tags",
        }
    }

    fn validate(&self) -> (problem: Option<Problem>) {
        proof {
            lemma_field_keys_distinct();
        }
        match self {
            Field::Title(value) => {
                if value.as_str().is_empty() {
                    Some(Problem::new_invalid_field(self.key(), "title can't be blank"))
                } else {
                    None
                }
            },
            Field::Body(value) => {
                if value.as_str().is_empty() {
                    Some(Problem::new_invalid_field(self.key(), "body can't be blank"))
                } else {
                    None
                }
            },
            Field::Tags(_) | Field::Description(_) => None,
        }
    }
}

/// The fields of a new article: a blank title, description, body and tags,
/// in that order.
pub open spec fn blank_article_fields() -> Seq<(Seq<char>, Seq<char>)> {
    seq![
        ("title"@, Seq::<char>::empty()),
        ("description"@, Seq::<char>::empty()),
        ("body"@, Seq::<char>::empty()),
        ("tags"@, Seq::<char>::empty()),
    ]
}

impl Default for Form {
    /// The article editor's form with every field blank.
    fn default() -> (form: Form)
        ensures
            form@ == blank_article_fields(),
    {
        let fields = vec![
            Field::Title(String::new()),
            Field::Description(String::new()),
            Field::Body(String::new()),
            Field::Tags(String::new()),
        ];
        let form = Form::new(fields);
        proof {
            lemma_field_keys_distinct();
            let added = fields@.map_values(|f: Field| f@);
            let e = Seq::<(Seq<char>, Seq<char>)>::empty();
            let blank = blank_article_fields();
            assert(added =~= blank);
            let s1 = upsert(e, blank[0]);
            assert(!has_field(e, blank[0].0));
            assert(s1 =~= blank.take(1));
            assert(!has_field(s1, blank[1].0));
            let s2 = upsert(s1, blank[1]);
            assert(s2 =~= blank.take(2));
            assert(!has_field(s2, blank[2].0)) by {
                if has_field(s2, blank[2].0) {
                    let i = choose|i: int| 0 <= i < s2.len() && #[trigger] s2[i].0 == blank[2].0;
                }
            }
            let s3 = upsert(s2, blank[2]);
            assert(s3 =~= blank.take(3));
            assert(!has_field(s3, blank[3].0)) by {
                if has_field(s3, blank[3].0) {
                    let i = choose|i: int| 0 <= i < s3.len() && #[trigger] s3[i].0 == blank[3].0;
                }
            }
            let s4 = upsert(s3, blank[3]);
            assert(s4 =~= blank);
            assert(blank.drop_last() =~= blank.take(3));
            assert(blank.take(3).drop_last() =~= blank.take(2));
            assert(blank.take(2).drop_last() =~= blank.take(1));
            assert(blank.take(1).drop_last() =~= e);
            assert(upsert_all(e, e) == e);
            assert(blank.take(1).last() == blank[0]);
            assert(upsert_all(e, blank.take(1)) == s1);
            assert(upsert_all(e, blank.take(2)) == s2);
            assert(upsert_all(e, blank.take(3)) == s3);
            assert(upsert_all(e, blank) == s4);
        }
        form
    }
}

} // verus!
