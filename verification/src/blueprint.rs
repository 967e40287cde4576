//! Blueprints: the JSON templates that describe a form, and the values its fields hold.
use vstd::prelude::*;
use vstd::string::*;
use crate::text;

verus! {

/// The kind of widget a field is edited with.
#[derive(Debug, Clone, Copy, PartialEq, Eq, Structural)]
pub enum FieldType {
    Text,
    Textarea,
    Number,
    Checkbox,
    Select,
    Multiselect,
    SearchCrate,
    CrateInput,
    ListBuilder,
    SectionBreak,
    CrateSearch,
    ActionButton,
}

impl View for FieldType {
    type V = FieldType;

    open spec fn view(&self) -> FieldType {
        *self
    }
}

/// One choice of a select or multiselect field.
#[derive(Debug, Clone, Default)]
pub struct SelectOption {
    pub value: String,
    pub label: String,
    pub description: String,
}

/// The value of a field.
///
/// A JSON number is held as the bit pattern of its IEEE-754 double
/// (`f64::to_bits`), so that the value travels unchanged without floating point.
#[derive(Debug, Clone, Default, PartialEq)]
pub enum FieldValue {
    #[default]
    Empty,
    Text(String),
    Number(u64),
    Bool(bool),
    Array(Vec<String>),
}

/// The mathematical model of a `FieldValue`.
pub enum FieldVal {
    Empty,
    Text(Seq<char>),
    Number(u64),
    Bool(bool),
    Array(Seq<Seq<char>>),
}

impl View for FieldValue {
    type V = FieldVal;

    open spec fn view(&self) -> FieldVal {
        match self {
            FieldValue::Empty => FieldVal::Empty,
            FieldValue::Text(s) => FieldVal::Text(s@),
            FieldValue::Number(b) => FieldVal::Number(*b),
            FieldValue::Bool(b) => FieldVal::Bool(*b),
            FieldValue::Array(v) => FieldVal::Array(text::views(v@)),
        }
    }
}

/// Mask that clears the sign bit of a double's bit pattern.
pub const MAGNITUDE_MASK: u64 = 0x7fff_ffff_ffff_ffffu64;

impl FieldVal {
    /// The text of a `Text` value, empty for any other value.
    pub open spec fn text(self) -> Seq<char> {
        match self {
            FieldVal::Text(s) => s,
            _ => Seq::empty(),
        }
    }

    /// The flag of a `Bool` value, false for any other value.
    pub open spec fn flag(self) -> bool {
        match self {
            FieldVal::Bool(b) => b,
            _ => false,
        }
    }

    /// The items of an `Array` value, none for any other value.
    pub open spec fn items(self) -> Seq<Seq<char>> {
        match self {
            FieldVal::Array(v) => v,
            _ => Seq::empty(),
        }
    }

    /// Whether the value counts as not filled in: nothing, blank text, false,
    /// the number zero (either sign; NaN is not zero) or an empty list.
    pub open spec fn empty(self) -> bool {
        match self {
            FieldVal::Empty => true,
            FieldVal::Text(s) => text::blank(s),
            FieldVal::Bool(b) => !b,
            FieldVal::Number(bits) => bits & MAGNITUDE_MASK == 0,
            FieldVal::Array(v) => v.len() == 0,
        }
    }
}

/// A copy of every string of `v`.
pub fn copy_strings(v: &Vec<String>) -> (r: Vec<String>)
    ensures
        r@ == v@,
{
    let mut r: Vec<String> = Vec::new();
    let mut i: usize = 0;
    while i < v.len()
        invariant
            i <= v.len(),
            r@ == v@.subrange(0, i as int),
        decreases v.len() - i,
    {
        r.push(v[i].clone());
        assert(r@ =~= v@.subrange(0, i + 1));
        i = i + 1;
    }
    assert(v@.subrange(0, v.len() as int) =~= v@);
    r
}

impl FieldValue {
    /// The text of a `Text` value, `""` otherwise.
    pub fn as_str(&self) -> (r: &str)
        ensures
            r@ == self@.text(),
    {
        match self {
            FieldValue::Text(s) => s.as_str(),
            _ => {
                proof {
                    reveal_strlit("");
                }
                ""
            },
        }
    }

    /// The flag of a `Bool` value, `false` otherwise.
    pub fn as_bool(&self) -> (r: bool)
        ensures
            r == self@.flag(),
    {
        match self {
            FieldValue::Bool(b) => *b,
            _ => false,
        }
    }

    /// A copy of the items of an `Array` value, none otherwise.
    pub fn as_vec(&self) -> (r: Vec<String>)
        ensures
            text::views(r@) == self@.items(),
    {
        match self {
            FieldValue::Array(v) => copy_strings(v),
            _ => Vec::new(),
        }
    }

    /// Whether the value counts as not filled in (see `FieldVal::empty`).
    pub fn is_empty(&self) -> (r: bool)
        ensures
            r == self@.empty(),
    {
        match self {
            FieldValue::Empty => true,
            FieldValue::Text(s) => text::is_blank(s.as_str()),
            FieldValue::Bool(b) => !*b,
            FieldValue::Number(bits) => *bits & MAGNITUDE_MASK == 0,
            FieldValue::Array(v) => v.len() == 0,
        }
    }

    /// An exact copy of the value.
    pub fn duplicate(&self) -> (r: FieldValue)
        ensures
            r@ == self@,
    {
        match self {
            FieldValue::Empty => FieldValue::Empty,
            FieldValue::Text(s) => FieldValue::Text(s.clone()),
            FieldValue::Number(b) => FieldValue::Number(*b),
            FieldValue::Bool(b) => FieldValue::Bool(*b),
            FieldValue::Array(v) => FieldValue::Array(copy_strings(v)),
        }
    }
}

/// One input of a blueprint section.
///
/// `min` and `max` hold bit patterns of doubles, like `FieldValue::Number`.
#[derive(Debug, Clone)]
pub struct Field {
    pub key: String,
    pub label: String,
    pub field_type: FieldType,
    pub description: String,
    pub required: bool,
    pub placeholder: String,
    pub default: FieldValue,
    pub options: Vec<SelectOption>,
    pub min: Option<u64>,
    pub max: Option<u64>,
    pub rows: Option<u16>,
    pub search_crate: Option<String>,
    pub crate_name: Option<String>,
    pub target_list_key: Option<String>,
    pub hidden: bool,
    pub button_text: Option<String>,
    pub action: Option<String>,
    pub registry: String,
}

/// A titled group of fields.
#[derive(Debug, Clone)]
pub struct Section {
    pub title: String,
    pub icon: String,
    pub description: String,
    pub fields: Vec<Field>,
}

/// A prompt template: named sections of fields.
#[derive(Debug, Clone)]
pub struct Blueprint {
    pub name: String,
    pub description: String,
    pub icon: String,
    pub sections: Vec<Section>,
}

/// The model of a `SelectOption`.
pub struct OptionView {
    pub value: Seq<char>,
    pub label: Seq<char>,
    pub description: Seq<char>,
}

/// The model of a `Field`.
pub struct FieldView {
    pub key: Seq<char>,
    pub label: Seq<char>,
    pub field_type: FieldType,
    pub description: Seq<char>,
    pub required: bool,
    pub placeholder: Seq<char>,
    pub default: FieldVal,
    pub options: Seq<OptionView>,
    pub min: Option<u64>,
    pub max: Option<u64>,
    pub rows: Option<u16>,
    pub search_crate: Option<Seq<char>>,
    pub crate_name: Option<Seq<char>>,
    pub target_list_key: Option<Seq<char>>,
    pub hidden: bool,
    pub button_text: Option<Seq<char>>,
    pub action: Option<Seq<char>>,
    pub registry: Seq<char>,
}

/// The model of a `Section`.
pub struct SectionView {
    pub title: Seq<char>,
    pub icon: Seq<char>,
    pub description: Seq<char>,
    pub fields: Seq<FieldView>,
}

/// The model of a `Blueprint`.
pub struct BlueprintView {
    pub name: Seq<char>,
    pub description: Seq<char>,
    pub icon: Seq<char>,
    pub sections: Seq<SectionView>,
}

/// The model of an optional string.
pub open spec fn opt_view(o: Option<String>) -> Option<Seq<char>> {
    match o {
        Some(s) => Some(s@),
        None => None,
    }
}

/// A copy of an optional string.
pub fn copy_opt(o: &Option<String>) -> (r: Option<String>)
    ensures
        opt_view(r) == opt_view(*o),
{
    match o {
        Some(s) => Some(s.clone()),
        None => None,
    }
}

impl View for SelectOption {
    type V = OptionView;

    open spec fn view(&self) -> OptionView {
        OptionView { value: self.value@, label: self.label@, description: self.description@ }
    }
}

impl View for Field {
    type V = FieldView;

    open spec fn view(&self) -> FieldView {
        FieldView {
            key: self.key@,
            label: self.label@,
            field_type: self.field_type,
            description: self.description@,
            required: self.required,
            placeholder: self.placeholder@,
            default: self.default@,
            options: self.options@.map_values(|o: SelectOption| o@),
            min: self.min,
            max: self.max,
            rows: self.rows,
            search_crate: opt_view(self.search_crate),
            crate_name: opt_view(self.crate_name),
            target_list_key: opt_view(self.target_list_key),
            hidden: self.hidden,
            button_text: opt_view(self.button_text),
            action: opt_view(self.action),
            registry: self.registry@,
        }
    }
}

impl View for Section {
    type V = SectionView;

    open spec fn view(&self) -> SectionView {
        SectionView {
            title: self.title@,
            icon: self.icon@,
            description: self.description@,
            fields: self.fields@.map_values(|f: Field| f@),
        }
    }
}

impl View for Blueprint {
    type V = BlueprintView;

    open spec fn view(&self) -> BlueprintView {
        BlueprintView {
            name: self.name@,
            description: self.description@,
            icon: self.icon@,
            sections: self.sections@.map_values(|s: Section| s@),
        }
    }
}

impl SelectOption {
    /// An exact copy.
    pub fn duplicate(&self) -> (r: SelectOption)
        ensures
            r@ == self@,
    {
        SelectOption {
            value: self.value.clone(),
            label: self.label.clone(),
            description: self.description.clone(),
        }
    }
}

impl Field {
    /// An exact copy.
    pub fn duplicate(&self) -> (r: Field)
        ensures
            r@ == self@,
    {
        let mut options: Vec<SelectOption> = Vec::new();
        let mut i: usize = 0;
        while i < self.options.len()
            invariant
                i <= self.options@.len(),
                options@.len() == i,
                forall|j: int| 0 <= j < i ==> (#[trigger] options@[j])@ == self.options@[j]@,
            decreases self.options.len() - i,
        {
            options.push(self.options[i].duplicate());
            i = i + 1;
        }
        let r = Field {
            key: self.key.clone(),
            label: self.label.clone(),
            field_type: self.field_type,
            description: self.description.clone(),
            required: self.required,
            placeholder: self.placeholder.clone(),
            default: self.default.duplicate(),
            options,
            min: self.min,
            max: self.max,
            rows: self.rows,
            search_crate: copy_opt(&self.search_crate),
            crate_name: copy_opt(&self.crate_name),
            target_list_key: copy_opt(&self.target_list_key),
            hidden: self.hidden,
            button_text: copy_opt(&self.button_text),
            action: copy_opt(&self.action),
            registry: self.registry.clone(),
        };
        assert(r@.options =~= self@.options);
        r
    }
}

impl Section {
    /// An exact copy.
    pub fn duplicate(&self) -> (r: Section)
        ensures
            r@ == self@,
    {
        let mut fields: Vec<Field> = Vec::new();
        let mut i: usize = 0;
        while i < self.fields.len()
            invariant
                i <= self.fields@.len(),
                fields@.len() == i,
                forall|j: int| 0 <= j < i ==> (#[trigger] fields@[j])@ == self.fields@[j]@,
            decreases self.fields.len() - i,
        {
            fields.push(self.fields[i].duplicate());
            i = i + 1;
        }
        let r = Section {
            title: self.title.clone(),
            icon: self.icon.clone(),
            description: self.description.clone(),
            fields,
        };
        assert(r@.fields =~= self@.fields);
        r
    }
}

impl Blueprint {
    /// An exact copy.
    pub fn duplicate(&self) -> (r: Blueprint)
        ensures
            r@ == self@,
    {
        let mut sections: Vec<Section> = Vec::new();
        let mut i: usize = 0;
        while i < self.sections.len()
            invariant
                i <= self.sections@.len(),
                sections@.len() == i,
                forall|j: int| 0 <= j < i ==> (#[trigger] sections@[j])@ == self.sections@[j]@,
            decreases self.sections.len() - i,
        {
            sections.push(self.sections[i].duplicate());
            i = i + 1;
        }
        let r = Blueprint {
            name: self.name.clone(),
            description: self.description.clone(),
            icon: self.icon.clone(),
            sections,
        };
        assert(r@.sections =~= self@.sections);
        r
    }

    /// The model of a blueprint with no name, description, icon or sections.
    pub open spec fn empty_view() -> BlueprintView {
        BlueprintView {
            name: Seq::empty(),
            description: Seq::empty(),
            icon: Seq::empty(),
            sections: Seq::empty(),
        }
    }

    /// A blueprint with no name, description, icon or sections.
    pub fn empty() -> (r: Blueprint)
        ensures
            r@ == Blueprint::empty_view(),
    {
        let r = Blueprint { name: String::new(), description: String::new(), icon: String::new(), sections: Vec::new() };
        assert(r@.sections =~= Seq::<SectionView>::empty());
        r
    }
}

impl Field {
    /// Whether the form edits this field (not a section break, not hidden).
    pub fn is_editable(&self) -> (r: bool)
        ensures
            r == (self.field_type != FieldType::SectionBreak && !self.hidden),
    {
        self.field_type != FieldType::SectionBreak && !self.hidden
    }
}

/// The registry searched when a field names none.
pub fn default_registry() -> (r: String)
    ensures
        r@ == "crates.io"@,
{
    String::from_str("crates.io")
}

} // verus!
