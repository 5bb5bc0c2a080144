//! Helpers for handlers: picking the one element a selection should yield,
//! reading its attribute, and the fields of an HTML form.
use vstd::prelude::*;
use vstd::string::StringExecFns;
use scraper::{Html, Selector};

verus! {

#[verifier::external_type_specification]
#[verifier::external_body]
pub struct ExHtml(Html);

#[verifier::external_type_specification]
#[verifier::external_body]
pub struct ExSelector(Selector);

/// Whether a text is a CSS selector group that scraper accepts.
pub uninterp spec fn is_selector(text: Seq<char>) -> bool;

/// Relies on scraper's `Selector::parse`: it accepts a text or not, by the
/// text alone.
#[verifier::external_body]
fn parse_selector(text: &str) -> (r: Option<Selector>)
    ensures
        r is Some <==> is_selector(text@),
{
    Selector::parse(text).ok()
}

/// Relies on scraper's `Html::select`, `ElementRef::select` and
/// `Element::attr`: each element of `body` that `form` matches, in document
/// order, as its attribute `form_attr` and, for each of its descendants that
/// `input` matches, the attributes `input_attrs.0` and `input_attrs.1`.
#[verifier::external_body]
fn select_forms(
    body: &Html,
    form: &Selector,
    input: &Selector,
    form_attr: &str,
    input_attrs: (&str, &str),
) -> (r: Vec<(Option<String>, Vec<(Option<String>, Option<String>)>)>) {
    let attr = |e: &scraper::ElementRef, name: &str| e.value().attr(name).map(|a| a.to_string());
    body.select(form).map(
        |f| (attr(&f, form_attr), f.select(input).map(|e| (attr(&e, input_attrs.0), attr(&e, input_attrs.1))).collect()),
    ).collect()
}

/// The CSS selector that picks a form by its `id` and `name` attributes,
/// each only where it is given.
pub open spec fn form_selector(id: Option<Seq<char>>, name: Option<Seq<char>>) -> Seq<char> {
    let id_part = match id {
        Some(i) => "id=\""@ + i + "\""@,
        None => Seq::empty(),
    };
    let name_part = match name {
        Some(n) => "name=\""@ + n + "\""@,
        None => Seq::empty(),
    };
    let sep = if id is Some && name is Some { ","@ } else { Seq::empty() };
    "form["@ + id_part + sep + name_part + "]"@
}

/// Why a selection did not give the one element (or attribute) expected.
#[derive(Debug, Clone)]
pub enum ParseError {
    /// The selection holds more than one element.
    NonUniqueElement,
    /// The selection holds no element.
    NoElement,
    /// The unique element lacks the named attribute.
    MissingAttribute(String),
}

/// The one element of a selection: an error when it holds none or more than
/// one.
pub fn get_unique_element<E>(select: Vec<E>) -> (r: Result<E, ParseError>)
    ensures
        select@.len() == 1 <==> r is Ok,
        r matches Ok(e) ==> e == select@[0],
        select@.len() == 0 <==> r matches Err(ParseError::NoElement),
        select@.len() > 1 <==> r matches Err(ParseError::NonUniqueElement),
{
    let mut select = select;
    if select.len() > 1 {
        return Err(ParseError::NonUniqueElement);
    }
    match select.pop() {
        Some(e) => Ok(e),
        None => Err(ParseError::NoElement),
    }
}

/// The value of attribute `attr` on the one element of a selection, given as
/// each element's value of that attribute (`None` where it lacks it).
pub fn parse_attr(select: Vec<Option<String>>, attr: &str) -> (r: Result<String, ParseError>)
    ensures
        select@.len() == 0 <==> r matches Err(ParseError::NoElement),
        select@.len() > 1 <==> r matches Err(ParseError::NonUniqueElement),
        (select@.len() == 1 && select@[0] is None) <==> r matches Err(
            ParseError::MissingAttribute(a),
        ),
        r matches Err(ParseError::MissingAttribute(a)) ==> a@ == attr@,
        r matches Ok(v) ==> select@.len() == 1 && select@[0] == Some(v),
{
    match get_unique_element(select) {
        Ok(Some(value)) => Ok(value),
        Ok(None) => Err(ParseError::MissingAttribute(attr.to_string())),
        Err(e) => Err(e),
    }
}

/// A named value to submit with a form.
#[derive(Clone, Debug)]
pub struct FormField {
    pub name: String,
    pub value: String,
}

impl FormField {
    /// A field named `name` holding `value`.
    pub fn new(name: String, value: String) -> (r: Self)
        ensures
            r.name@ == name@,
            r.value@ == value@,
    {
        FormField { name, value }
    }
}

/// The value of the last field named `name`, if any: a later field of the
/// same name overrides an earlier one.
pub open spec fn last_value(fields: Seq<(Seq<char>, Seq<char>)>, name: Seq<char>) -> Option<
    Seq<char>,
>
    decreases fields.len(),
{
    if fields.len() == 0 {
        None
    } else if fields.last().0 == name {
        Some(fields.last().1)
    } else {
        last_value(fields.drop_last(), name)
    }
}

/// The fields of a form that the caller did not set: an input with an `id`
/// is submitted under it, with its `value` or the empty string.
pub open spec fn input_fields(inputs: Seq<(Option<String>, Option<String>)>) -> Seq<
    (Seq<char>, Seq<char>),
>
    decreases inputs.len(),
{
    if inputs.len() == 0 {
        Seq::empty()
    } else {
        let rest = input_fields(inputs.drop_last());
        match inputs.last().0 {
            Some(id) => rest.push(
                (
                    id@,
                    match inputs.last().1 {
                        Some(v) => v@,
                        None => Seq::empty(),
                    },
                ),
            ),
            None => rest,
        }
    }
}

/// A field as the name and value it submits.
pub open spec fn field_view(f: FormField) -> (Seq<char>, Seq<char>) {
    (f.name@, f.value@)
}

/// No two fields share a name.
pub open spec fn unique_names(fields: Seq<(Seq<char>, Seq<char>)>) -> bool {
    forall|i: int, j: int| 0 <= i < j < fields.len() ==> fields[i].0 != fields[j].0
}

/// Two lists of fields submit the same value under every name.
pub open spec fn same_values(a: Seq<(Seq<char>, Seq<char>)>, b: Seq<(Seq<char>, Seq<char>)>) -> bool {
    forall|k: Seq<char>| #[trigger] last_value(a, k) == last_value(b, k)
}

/// Adding a field at the end sets its name's value and keeps the others.
proof fn lemma_last_value_push(s: Seq<(Seq<char>, Seq<char>)>, p: (Seq<char>, Seq<char>), k: Seq<char>)
    ensures
        last_value(s.push(p), k) == if p.0 == k { Some(p.1) } else { last_value(s, k) },
{
    assert(s.push(p).drop_last() =~= s);
}

/// Replacing the one field of a name sets that name's value and keeps the
/// others.
proof fn lemma_last_value_update(
    s: Seq<(Seq<char>, Seq<char>)>,
    i: int,
    p: (Seq<char>, Seq<char>),
    k: Seq<char>,
)
    requires
        unique_names(s),
        0 <= i < s.len(),
        s[i].0 == p.0,
    ensures
        last_value(s.update(i, p), k) == if p.0 == k { Some(p.1) } else { last_value(s, k) },
    decreases s.len(),
{
    let u = s.update(i, p);
    if i == s.len() - 1 {
        assert(u.drop_last() =~= s.drop_last());
    } else {
        assert(u.drop_last() =~= s.drop_last().update(i, p));
        assert(s.last().0 != p.0);
        lemma_last_value_update(s.drop_last(), i, p, k);
    }
}

/// Without a field of a name, that name has no value.
proof fn lemma_last_value_absent(s: Seq<(Seq<char>, Seq<char>)>, k: Seq<char>)
    requires
        forall|j: int| 0 <= j < s.len() ==> s[j].0 != k,
    ensures
        last_value(s, k) is None,
    decreases s.len(),
{
    if s.len() > 0 {
        lemma_last_value_absent(s.drop_last(), k);
    }
}

/// Sets the field `f`: the field of its name, if any, takes its value;
/// otherwise it is added at the end.
fn set_field(fields: &mut Vec<FormField>, f: FormField)
    requires
        unique_names(fields_view(old(fields)@)),
    ensures
        unique_names(fields_view(final(fields)@)),
        forall|k: Seq<char>| #[trigger] last_value(fields_view(final(fields)@), k)
            == if f.name@ == k { Some(f.value@) } else { last_value(fields_view(old(fields)@), k) },
{
    let ghost old_view = fields_view(fields@);
    let mut i: usize = 0;
    while i < fields.len()
        invariant
            i <= fields@.len(),
            fields_view(fields@) == old_view,
            old_view == fields_view(old(fields)@),
            unique_names(old_view),
            forall|j: int| 0 <= j < i ==> old_view[j].0 != f.name@,
        decreases fields@.len() - i,
    {
        if fields[i].name == f.name {
            assert(old_view[i as int].0 == f.name@);
            fields.set(i, f);
            proof {
                let u = old_view.update(i as int, field_view(f));
                assert(fields_view(fields@) =~= old_view.update(i as int, field_view(f)));
                assert(forall|j: int| 0 <= j < old_view.len() ==> u[j].0 == old_view[j].0);
                assert(unique_names(u));
                assert forall|k: Seq<char>| #[trigger] last_value(fields_view(fields@), k)
                    == if f.name@ == k { Some(f.value@) } else { last_value(old_view, k) } by {
                    lemma_last_value_update(old_view, i as int, field_view(f), k);
                    assert(fields_view(fields@) == u);
                }
            }
            return;
        }
        i = i + 1;
    }
    fields.push(f);
    proof {
        assert(fields_view(fields@) =~= old_view.push(field_view(f)));
        assert(unique_names(fields_view(fields@)));
        assert forall|k: Seq<char>| #[trigger] last_value(fields_view(fields@), k)
            == if f.name@ == k { Some(f.value@) } else { last_value(old_view, k) } by {
            lemma_last_value_push(old_view, field_view(f), k);
        }
    }
}

/// Fields as the names and values they submit, in order.
pub open spec fn fields_view(fields: Seq<FormField>) -> Seq<(Seq<char>, Seq<char>)> {
    fields.map_values(|f: FormField| field_view(f))
}

/// Collects what is needed to find a form in a page: the page's body is
/// required; the form's `id` and `name` and the fields to submit are not.
pub struct FormBuilder {
    id: Option<String>,
    name: Option<String>,
    fields: Vec<FormField>,
    body: Option<Html>,
}

impl FormBuilder {
    /// The form's `id` set so far.
    pub closed spec fn spec_id(&self) -> Option<Seq<char>> {
        match self.id {
            Some(i) => Some(i@),
            None => None,
        }
    }

    /// The form's `name` set so far.
    pub closed spec fn spec_name(&self) -> Option<Seq<char>> {
        match self.name {
            Some(n) => Some(n@),
            None => None,
        }
    }

    /// The fields set so far, in order.
    pub closed spec fn spec_fields(&self) -> Seq<(Seq<char>, Seq<char>)> {
        fields_view(self.fields@)
    }

    /// Whether the body has been set.
    pub closed spec fn has_body(&self) -> bool {
        self.body is Some
    }

    /// Sets the form's `id`.
    pub fn id(self, id: String) -> (r: Self)
        ensures
            r.spec_id() == Some(id@),
            r.spec_name() == self.spec_name(),
            r.spec_fields() == self.spec_fields(),
            r.has_body() == self.has_body(),
    {
        FormBuilder { id: Some(id), ..self }
    }

    /// Sets the form's `name`.
    pub fn name(self, name: String) -> (r: Self)
        ensures
            r.spec_id() == self.spec_id(),
            r.spec_name() == Some(name@),
            r.spec_fields() == self.spec_fields(),
            r.has_body() == self.has_body(),
    {
        FormBuilder { name: Some(name), ..self }
    }

    /// Sets the page body that holds the form.
    pub fn body(self, body: Html) -> (r: Self)
        ensures
            r.spec_id() == self.spec_id(),
            r.spec_name() == self.spec_name(),
            r.spec_fields() == self.spec_fields(),
            r.has_body(),
    {
        FormBuilder { body: Some(body), ..self }
    }

    /// Moves all of `fields` to the end of the fields to submit.
    pub fn fields(self, fields: &mut Vec<FormField>) -> (r: Self)
        ensures
            r.spec_id() == self.spec_id(),
            r.spec_name() == self.spec_name(),
            r.spec_fields() == self.spec_fields() + fields_view(old(fields)@),
            r.has_body() == self.has_body(),
            final(fields)@.len() == 0,
    {
        let mut this = self;
        let ghost before = this.fields@;
        this.fields.append(fields);
        assert(fields_view(this.fields@) =~= fields_view(before) + fields_view(old(fields)@));
        this
    }

    /// Adds one field to submit.
    pub fn add_field(self, field: FormField) -> (r: Self)
        ensures
            r.spec_id() == self.spec_id(),
            r.spec_name() == self.spec_name(),
            r.spec_fields() == self.spec_fields().push(field_view(field)),
            r.has_body() == self.has_body(),
    {
        let mut this = self;
        this.fields.push(field);
        assert(fields_view(this.fields@) =~= fields_view(self.fields@).push(field_view(field)));
        this
    }

    /// The selector text that finds the form.
    pub fn selector(&self) -> (r: String)
        ensures
            r@ == form_selector(self.spec_id(), self.spec_name()),
    {
        let mut text = String::from_str("form[");
        match &self.id {
            Some(id) => {
                text.append("id=\"");
                text.append(id.as_str());
                text.append("\"");
            },
            None => {},
        }
        if self.id.is_some() && self.name.is_some() {
            text.append(",");
        }
        match &self.name {
            Some(name) => {
                text.append("name=\"");
                text.append(name.as_str());
                text.append("\"");
            },
            None => {},
        }
        text.append("]");
        text
    }

    /// Finds the form in the body: the first element that the selector from
    /// [`FormBuilder::selector`] matches, sent to its `action`. Its inputs
    /// that carry an `id` give the form's fields, and the fields set here
    /// come after them, so they override them. Exactly one of `id` and `name`
    /// must be set. `None` when the selector is not valid CSS, no element
    /// matches, or the form has no `action`.
    pub fn build(self) -> (r: Option<Form>)
        requires
            self.has_body(),
            self.spec_id() is Some != self.spec_name() is Some,
        ensures
            !is_selector(form_selector(self.spec_id(), self.spec_name())) ==> r is None,
            r matches Some(f) ==> unique_names(f.spec_fields()) && exists|
                inputs: Seq<(Option<String>, Option<String>)>,
            | same_values(f.spec_fields(), #[trigger] input_fields(inputs) + self.spec_fields()),
    {
        let text = self.selector();
        let form_selector = match parse_selector(text.as_str()) {
            Some(sel) => sel,
            None => return None,
        };
        let input_selector = match parse_selector("input") {
            Some(sel) => sel,
            None => return None,
        };
        let body = match &self.body {
            Some(b) => b,
            None => return None,
        };
        let found = select_forms(body, &form_selector, &input_selector, "action", ("id", "value"));
        let ghost fields = self.spec_fields();
        let r = Form::first_of(found, self.fields);
        proof {
            if r is Some {
                let f = r->0;
                assert(same_values(f.spec_fields(), input_fields(found@[0].1@) + fields));
            }
        }
        r
    }
}

/// A form found in a page, ready to submit: where it is sent, and one field
/// for each name it submits.
#[derive(Debug)]
pub struct Form {
    fields: Vec<FormField>,
    path: String,
}

impl Form {
    /// A builder with nothing set.
    pub fn builder() -> (r: FormBuilder)
        ensures
            r.spec_id() is None,
            r.spec_name() is None,
            r.spec_fields().len() == 0,
            !r.has_body(),
    {
        FormBuilder { id: None, name: None, fields: Vec::new(), body: None }
    }

    /// The fields, in order.
    pub closed spec fn spec_fields(&self) -> Seq<(Seq<char>, Seq<char>)> {
        fields_view(self.fields@)
    }

    /// Where the form is sent.
    pub closed spec fn spec_path(&self) -> Seq<char> {
        self.path@
    }

    /// The form sent to `path`, whose inputs are given as each input's `id`
    /// and `value` attributes, in the order they appear: inputs without an
    /// `id` are left out, a missing value is the empty string, and the
    /// caller's `fields` come after them and so override them.
    pub fn new(path: String, inputs: Vec<(Option<String>, Option<String>)>, fields: Vec<FormField>) -> (r: Self)
        ensures
            r.spec_path() == path@,
            unique_names(r.spec_fields()),
            same_values(r.spec_fields(), input_fields(inputs@) + fields_view(fields@)),
    {
        let mut found: Vec<FormField> = Vec::new();
        let mut i: usize = 0;
        while i < inputs.len()
            invariant
                i <= inputs@.len(),
                fields_view(found@) == input_fields(inputs@.take(i as int)),
            decreases inputs@.len() - i,
        {
            assert(inputs@.take(i + 1).drop_last() =~= inputs@.take(i as int));
            let (id, value) = &inputs[i];
            match id {
                Some(id) => {
                    let value = match value {
                        Some(v) => v.clone(),
                        None => String::new(),
                    };
                    found.push(FormField { name: id.clone(), value });
                },
                None => {},
            }
            proof {
                assert(fields_view(found@) =~= input_fields(inputs@.take(i + 1)));
            }
            i = i + 1;
        }
        assert(inputs@.take(inputs@.len() as int) =~= inputs@);
        let ghost before = found@;
        let mut extra = fields;
        found.append(&mut extra);
        let ghost all = fields_view(found@);
        assert(all =~= fields_view(before) + fields_view(fields@));
        let mut unique: Vec<FormField> = Vec::new();
        let mut j: usize = 0;
        while j < found.len()
            invariant
                j <= found@.len(),
                all == fields_view(found@),
                unique_names(fields_view(unique@)),
                same_values(fields_view(unique@), all.take(j as int)),
            decreases found@.len() - j,
        {
            let f = FormField { name: found[j].name.clone(), value: found[j].value.clone() };
            set_field(&mut unique, f);
            proof {
                assert(all.take(j + 1) =~= all.take(j as int).push(all[j as int]));
                assert forall|k: Seq<char>| #[trigger] last_value(fields_view(unique@), k)
                    == last_value(all.take(j + 1), k) by {
                    lemma_last_value_push(all.take(j as int), all[j as int], k);
                }
            }
            j = j + 1;
        }
        assert(all.take(found@.len() as int) =~= all);
        Form { fields: unique, path }
    }

    /// The first of the forms found in a page, each given as its `action`
    /// and its inputs (see [`Form::new`]), with the caller's `fields` after
    /// its inputs. `None` when no form was found or the first has no
    /// `action`.
    pub fn first_of(
        found: Vec<(Option<String>, Vec<(Option<String>, Option<String>)>)>,
        fields: Vec<FormField>,
    ) -> (r: Option<Form>)
        ensures
            r is Some <==> (found@.len() > 0 && found@[0].0 is Some),
            r matches Some(f) ==> {
                &&& f.spec_path() == found@[0].0->0@
                &&& unique_names(f.spec_fields())
                &&& same_values(f.spec_fields(), input_fields(found@[0].1@) + fields_view(fields@))
            },
    {
        let mut found = found;
        if found.len() == 0 {
            return None;
        }
        let (action, inputs) = found.swap_remove(0);
        match action {
            Some(path) => Some(Form::new(path, inputs, fields)),
            None => None,
        }
    }

    /// Where the form is sent, relative to the page it came from.
    pub fn path(&self) -> (r: &String)
        ensures
            r@ == self.spec_path(),
    {
        &self.path
    }

    /// The fields, one for each name.
    pub fn fields(&self) -> (r: &Vec<FormField>)
        ensures
            fields_view(r@) == self.spec_fields(),
    {
        &self.fields
    }

    /// The value the form submits under `name`, if any.
    pub fn value(&self, name: &String) -> (r: Option<String>)
        ensures
            r matches Some(v) ==> last_value(self.spec_fields(), name@) == Some(v@),
            r is None <==> last_value(self.spec_fields(), name@) is None,
    {
        let mut i: usize = self.fields.len();
        assert(self.fields@.take(i as int) =~= self.fields@);
        while i > 0
            invariant
                i <= self.fields@.len(),
                last_value(self.spec_fields(), name@) == last_value(
                    fields_view(self.fields@.take(i as int)),
                    name@,
                ),
            decreases i,
        {
            assert(fields_view(self.fields@.take(i as int)).drop_last() =~= fields_view(
                self.fields@.take(i - 1),
            ));
            if self.fields[i - 1].name == *name {
                return Some(self.fields[i - 1].value.clone());
            }
            i = i - 1;
        }
        None
    }
}

} // verus!
