use vstd::prelude::*;

verus! {

/// The select's configuration, as one render sees it.
///
/// Callbacks, child content and the validity-transform function itself stay
/// with the host; `has_validity_transform` records whether one was supplied.
#[derive(Clone, Debug)]
pub struct Props {
    pub value: String,
    pub label: String,
    pub natural_menu_width: bool,
    pub icon: String,
    pub disabled: bool,
    pub outlined: bool,
    pub helper: String,
    pub required: bool,
    pub validation_message: String,
    pub items: String,
    /// The selected index; `-1` means that nothing is selected.
    pub index: i64,
    pub has_validity_transform: bool,
    pub validate_on_initial_render: bool,
}

/// The attributes that the native element accepts.
#[derive(Clone, Copy, Debug, PartialEq, Eq, Structural)]
pub enum AttrName {
    Value,
    Label,
    NaturalMenuWidth,
    Icon,
    Disabled,
    Outlined,
    Helper,
    Required,
    ValidationMessage,
    Items,
    Index,
    ValidateOnInitialRender,
}

impl AttrName {
    /// The attribute's name in markup.
    pub open spec fn markup_name(&self) -> Seq<char> {
        match self {
            AttrName::Value => "value"@,
            AttrName::Label => "label"@,
            AttrName::NaturalMenuWidth => "naturalMenuWidth"@,
            AttrName::Icon => "icon"@,
            AttrName::Disabled => "disabled"@,
            AttrName::Outlined => "outlined"@,
            AttrName::Helper => "helper"@,
            AttrName::Required => "required"@,
            AttrName::ValidationMessage => "validationMessage"@,
            AttrName::Items => "items"@,
            AttrName::Index => "index"@,
            AttrName::ValidateOnInitialRender => "validateOnInitialRender"@,
        }
    }

    /// The attribute's name in markup.
    pub fn as_str(&self) -> (r: &'static str)
        ensures
            r@ == self.markup_name(),
    {
        match self {
            AttrName::Value => "value",
            AttrName::Label => "label",
            AttrName::NaturalMenuWidth => "naturalMenuWidth",
            AttrName::Icon => "icon",
            AttrName::Disabled => "disabled",
            AttrName::Outlined => "outlined",
            AttrName::Helper => "helper",
            AttrName::Required => "required",
            AttrName::ValidationMessage => "validationMessage",
            AttrName::Items => "items",
            AttrName::Index => "index",
            AttrName::ValidateOnInitialRender => "validateOnInitialRender",
        }
    }
}

/// The value of a rendered attribute.
#[derive(Clone, Debug, PartialEq, Eq)]
pub enum AttrValue {
    /// A boolean attribute, present without a value.
    Flag,
    Text(String),
    Number(i64),
}

/// The mathematical form of an attribute value.
pub enum AttrSpec {
    Flag,
    Text(Seq<char>),
    Number(int),
}

impl AttrValue {
    pub open spec fn spec_of(&self) -> AttrSpec {
        match self {
            AttrValue::Flag => AttrSpec::Flag,
            AttrValue::Text(s) => AttrSpec::Text(s@),
            AttrValue::Number(n) => AttrSpec::Number(*n as int),
        }
    }
}

/// One attribute of the rendered element.
#[derive(Clone, Debug, PartialEq, Eq)]
pub struct Attribute {
    pub name: AttrName,
    pub value: AttrValue,
}

impl Attribute {
    pub open spec fn spec_of(&self) -> (AttrName, AttrSpec) {
        (self.name, self.value.spec_of())
    }
}

/// A string attribute: rendered only when the string is not empty.
pub open spec fn text_attr(n: AttrName, s: Seq<char>) -> Seq<(AttrName, AttrSpec)> {
    if s.len() == 0 {
        Seq::empty()
    } else {
        seq![(n, AttrSpec::Text(s))]
    }
}

/// A boolean attribute: rendered, without a value, only when true.
pub open spec fn flag_attr(n: AttrName, b: bool) -> Seq<(AttrName, AttrSpec)> {
    if b {
        seq![(n, AttrSpec::Flag)]
    } else {
        Seq::empty()
    }
}

/// The attributes that rendering `p` yields, in order.
pub open spec fn markup_of(p: Props) -> Seq<(AttrName, AttrSpec)> {
    text_attr(AttrName::Value, p.value@)
        + text_attr(AttrName::Label, p.label@)
        + flag_attr(AttrName::NaturalMenuWidth, p.natural_menu_width)
        + text_attr(AttrName::Icon, p.icon@)
        + flag_attr(AttrName::Disabled, p.disabled)
        + flag_attr(AttrName::Outlined, p.outlined)
        + text_attr(AttrName::Helper, p.helper@)
        + flag_attr(AttrName::Required, p.required)
        + text_attr(AttrName::ValidationMessage, p.validation_message@)
        + text_attr(AttrName::Items, p.items@)
        + seq![(AttrName::Index, AttrSpec::Number(p.index as int))]
        + flag_attr(AttrName::ValidateOnInitialRender, p.validate_on_initial_render)
}

/// The value that attribute `n` has in `m`, if `m` renders it.
pub open spec fn lookup(m: Seq<(AttrName, AttrSpec)>, n: AttrName) -> Option<AttrSpec>
    decreases m.len(),
{
    if m.len() == 0 {
        None
    } else if m.last().0 == n {
        Some(m.last().1)
    } else {
        lookup(m.drop_last(), n)
    }
}

/// What rendering `p` gives attribute `n`: the value of a non-empty string
/// prop, a flag for a true boolean prop, always the index, and nothing else.
pub open spec fn attr_of(p: Props, n: AttrName) -> Option<AttrSpec> {
    match n {
        AttrName::Value => text_value(p.value@),
        AttrName::Label => text_value(p.label@),
        AttrName::NaturalMenuWidth => flag_value(p.natural_menu_width),
        AttrName::Icon => text_value(p.icon@),
        AttrName::Disabled => flag_value(p.disabled),
        AttrName::Outlined => flag_value(p.outlined),
        AttrName::Helper => text_value(p.helper@),
        AttrName::Required => flag_value(p.required),
        AttrName::ValidationMessage => text_value(p.validation_message@),
        AttrName::Items => text_value(p.items@),
        AttrName::Index => Some(AttrSpec::Number(p.index as int)),
        AttrName::ValidateOnInitialRender => flag_value(p.validate_on_initial_render),
    }
}

pub open spec fn text_value(s: Seq<char>) -> Option<AttrSpec> {
    if s.len() == 0 {
        None
    } else {
        Some(AttrSpec::Text(s))
    }
}

pub open spec fn flag_value(b: bool) -> Option<AttrSpec> {
    if b {
        Some(AttrSpec::Flag)
    } else {
        None
    }
}

proof fn lemma_lookup_append(a: Seq<(AttrName, AttrSpec)>, b: Seq<(AttrName, AttrSpec)>, n: AttrName)
    ensures
        lookup(a + b, n) == match lookup(b, n) {
            Some(v) => Some(v),
            None => lookup(a, n),
        },
    decreases b.len(),
{
    if b.len() > 0 {
        assert((a + b).drop_last() =~= a + b.drop_last());
        lemma_lookup_append(a, b.drop_last(), n);
    } else {
        assert(a + b =~= a);
    }
}

proof fn lemma_lookup_single(x: (AttrName, AttrSpec), n: AttrName)
    ensures
        lookup(seq![x], n) == if x.0 == n {
            Some(x.1)
        } else {
            None::<AttrSpec>
        },
{
    assert(seq![x].drop_last() =~= Seq::<(AttrName, AttrSpec)>::empty());
    assert(lookup(Seq::<(AttrName, AttrSpec)>::empty(), n) == None::<AttrSpec>);
}

proof fn lemma_lookup_text(m: AttrName, s: Seq<char>, n: AttrName)
    ensures
        lookup(text_attr(m, s), n) == if m == n {
            text_value(s)
        } else {
            None::<AttrSpec>
        },
{
    if s.len() > 0 {
        lemma_lookup_single((m, AttrSpec::Text(s)), n);
    }
}

proof fn lemma_lookup_flag(m: AttrName, b: bool, n: AttrName)
    ensures
        lookup(flag_attr(m, b), n) == if m == n {
            flag_value(b)
        } else {
            None::<AttrSpec>
        },
{
    if b {
        lemma_lookup_single((m, AttrSpec::Flag), n);
    }
}

/// Every attribute is rendered exactly as its prop asks: a boolean prop as a
/// flag when true and not at all when false, a string prop with its exact
/// value when not empty and not at all when empty, and the index always, the
/// sentinel `-1` included.
#[verifier::rlimit(50)]
pub proof fn lemma_markup_attributes(p: Props, n: AttrName)
    ensures
        lookup(markup_of(p), n) == attr_of(p, n),
{
    let x0 = text_attr(AttrName::Value, p.value@);
    let x1 = text_attr(AttrName::Label, p.label@);
    let x2 = flag_attr(AttrName::NaturalMenuWidth, p.natural_menu_width);
    let x3 = text_attr(AttrName::Icon, p.icon@);
    let x4 = flag_attr(AttrName::Disabled, p.disabled);
    let x5 = flag_attr(AttrName::Outlined, p.outlined);
    let x6 = text_attr(AttrName::Helper, p.helper@);
    let x7 = flag_attr(AttrName::Required, p.required);
    let x8 = text_attr(AttrName::ValidationMessage, p.validation_message@);
    let x9 = text_attr(AttrName::Items, p.items@);
    let x10: Seq<(AttrName, AttrSpec)> = seq![(AttrName::Index, AttrSpec::Number(p.index as int))];
    let x11 = flag_attr(AttrName::ValidateOnInitialRender, p.validate_on_initial_render);
    lemma_lookup_text(AttrName::Value, p.value@, n);
    lemma_lookup_text(AttrName::Label, p.label@, n);
    lemma_lookup_flag(AttrName::NaturalMenuWidth, p.natural_menu_width, n);
    lemma_lookup_text(AttrName::Icon, p.icon@, n);
    lemma_lookup_flag(AttrName::Disabled, p.disabled, n);
    lemma_lookup_flag(AttrName::Outlined, p.outlined, n);
    lemma_lookup_text(AttrName::Helper, p.helper@, n);
    lemma_lookup_flag(AttrName::Required, p.required, n);
    lemma_lookup_text(AttrName::ValidationMessage, p.validation_message@, n);
    lemma_lookup_text(AttrName::Items, p.items@, n);
    lemma_lookup_single((AttrName::Index, AttrSpec::Number(p.index as int)), n);
    lemma_lookup_flag(AttrName::ValidateOnInitialRender, p.validate_on_initial_render, n);
    let y1 = x0 + x1;
    let y2 = y1 + x2;
    let y3 = y2 + x3;
    let y4 = y3 + x4;
    let y5 = y4 + x5;
    let y6 = y5 + x6;
    let y7 = y6 + x7;
    let y8 = y7 + x8;
    let y9 = y8 + x9;
    let y10 = y9 + x10;
    let y11 = y10 + x11;
    lemma_lookup_append(x0, x1, n);
    lemma_lookup_append(y1, x2, n);
    lemma_lookup_append(y2, x3, n);
    lemma_lookup_append(y3, x4, n);
    lemma_lookup_append(y4, x5, n);
    lemma_lookup_append(y5, x6, n);
    lemma_lookup_append(y6, x7, n);
    lemma_lookup_append(y7, x8, n);
    lemma_lookup_append(y8, x9, n);
    lemma_lookup_append(y9, x10, n);
    lemma_lookup_append(y10, x11, n);
    assert(markup_of(p) == y11);
}

impl Default for Props {
    /// Empty strings, false flags and the index `-1`.
    fn default() -> (r: Props)
        ensures
            r.value@.len() == 0,
            r.label@.len() == 0,
            !r.natural_menu_width,
            r.icon@.len() == 0,
            !r.disabled,
            !r.outlined,
            r.helper@.len() == 0,
            !r.required,
            r.validation_message@.len() == 0,
            r.items@.len() == 0,
            r.index == -1,
            !r.has_validity_transform,
            !r.validate_on_initial_render,
    {
        Props {
            value: String::new(),
            label: String::new(),
            natural_menu_width: false,
            icon: String::new(),
            disabled: false,
            outlined: false,
            helper: String::new(),
            required: false,
            validation_message: String::new(),
            items: String::new(),
            index: -1,
            has_validity_transform: false,
            validate_on_initial_render: false,
        }
    }
}

impl Props {
    /// Renders the element's attributes: string props only when not empty,
    /// boolean props as flags only when true, the index always.
    pub fn attributes(&self) -> (r: Vec<Attribute>)
        ensures
            r@.map_values(|a: Attribute| a.spec_of()) == markup_of(*self),
    {
        let mut r: Vec<Attribute> = Vec::new();
        push_text(&mut r, AttrName::Value, &self.value);
        push_text(&mut r, AttrName::Label, &self.label);
        push_flag(&mut r, AttrName::NaturalMenuWidth, self.natural_menu_width);
        push_text(&mut r, AttrName::Icon, &self.icon);
        push_flag(&mut r, AttrName::Disabled, self.disabled);
        push_flag(&mut r, AttrName::Outlined, self.outlined);
        push_text(&mut r, AttrName::Helper, &self.helper);
        push_flag(&mut r, AttrName::Required, self.required);
        push_text(&mut r, AttrName::ValidationMessage, &self.validation_message);
        push_text(&mut r, AttrName::Items, &self.items);
        let ghost before = r@.map_values(|a: Attribute| a.spec_of());
        r.push(Attribute { name: AttrName::Index, value: AttrValue::Number(self.index) });
        assert(r@.map_values(|a: Attribute| a.spec_of()) =~= before + seq![
            (AttrName::Index, AttrSpec::Number(self.index as int)),
        ]);
        push_flag(&mut r, AttrName::ValidateOnInitialRender, self.validate_on_initial_render);
        assert(r@.map_values(|a: Attribute| a.spec_of()) =~= markup_of(*self));
        r
    }
}

fn push_text(r: &mut Vec<Attribute>, n: AttrName, s: &String)
    ensures
        final(r)@.map_values(|a: Attribute| a.spec_of()) == old(r)@.map_values(
            |a: Attribute| a.spec_of(),
        ) + text_attr(n, s@),
{
    let ghost before = r@.map_values(|a: Attribute| a.spec_of());
    if s.as_str().is_empty() {
        assert(before + text_attr(n, s@) =~= before);
    } else {
        r.push(Attribute { name: n, value: AttrValue::Text(s.clone()) });
        assert(r@.map_values(|a: Attribute| a.spec_of()) =~= before + text_attr(n, s@));
    }
}

fn push_flag(r: &mut Vec<Attribute>, n: AttrName, b: bool)
    ensures
        final(r)@.map_values(|a: Attribute| a.spec_of()) == old(r)@.map_values(
            |a: Attribute| a.spec_of(),
        ) + flag_attr(n, b),
{
    let ghost before = r@.map_values(|a: Attribute| a.spec_of());
    if b {
        r.push(Attribute { name: n, value: AttrValue::Flag });
        assert(r@.map_values(|a: Attribute| a.spec_of()) =~= before + flag_attr(n, b));
    } else {
        assert(before + flag_attr(n, b) =~= before);
    }
}

} // verus!
