//! The form components of the job application, the application itself, and
//! how each is described to generation and written as a run-time value.

use crate::fields::{
    bool_in, count_option_in, count_option_value, read_bool, read_count_option, read_text,
    read_text_option, text_in, text_option, text_option_in, text_option_value, text_value,
    value_of_count_option, value_of_text_option,
};
use crate::model::models;
use crate::schema::{
    CompositeType, DomainSchema, FieldDescriptor, FieldModel, SchemaModel, TypeModel,
};
use crate::value::{lemma_record_model, Value, ValueModel};
use vstd::prelude::*;

verus! {

/// The composite type that stands for every optional member: it has no
/// fields of its own, and its default is the empty record.
pub fn option_type() -> (r: CompositeType)
    ensures
        r@ == (TypeModel {
            schema: SchemaModel { name: "Option"@, fields: Seq::empty() },
            default: Seq::empty(),
        }),
{
    let r = CompositeType {
        schema: DomainSchema { name: "Option".to_owned(), fields: Vec::new() },
        default: Vec::new(),
    };
    assert(r@.schema.fields =~= Seq::empty());
    assert(r@.default =~= Seq::empty());
    r
}

/// A single-line text input.
#[derive(Clone, Debug, PartialEq, Eq)]
pub struct TextField {
    pub value: String,
    pub label: String,
    pub name: Option<String>,
    pub id: Option<String>,
    pub placeholder: Option<String>,
    pub disabled: bool,
    pub readonly: bool,
    pub class: Option<String>,
}

/// What a [`TextField`] denotes.
pub struct TextFieldModel {
    pub value: Seq<char>,
    pub label: Seq<char>,
    pub name: Option<Seq<char>>,
    pub id: Option<Seq<char>>,
    pub placeholder: Option<Seq<char>>,
    pub disabled: bool,
    pub readonly: bool,
    pub class: Option<Seq<char>>,
}

impl View for TextField {
    type V = TextFieldModel;

    open spec fn view(&self) -> TextFieldModel {
        TextFieldModel {
            value: self.value@,
            label: self.label@,
            name: text_option(self.name),
            id: text_option(self.id),
            placeholder: text_option(self.placeholder),
            disabled: self.disabled,
            readonly: self.readonly,
            class: text_option(self.class),
        }
    }
}

/// The default single-line text input.
pub open spec fn text_field_default() -> TextFieldModel {
    TextFieldModel {
        value: Seq::empty(),
        label: Seq::empty(),
        name: None,
        id: None,
        placeholder: None,
        disabled: false,
        readonly: false,
        class: None,
    }
}

/// The schema of [`TextField`]: only `value` is exposed.
pub open spec fn text_field_schema() -> SchemaModel {
    SchemaModel {
        name: "TextField"@,
        fields: seq![
            FieldModel { name: "value"@, declared_type: "String"@, exposed: true },
            FieldModel { name: "label"@, declared_type: "String"@, exposed: false },
            FieldModel { name: "name"@, declared_type: "Option"@, exposed: false },
            FieldModel { name: "id"@, declared_type: "Option"@, exposed: false },
            FieldModel { name: "placeholder"@, declared_type: "Option"@, exposed: false },
            FieldModel { name: "disabled"@, declared_type: "bool"@, exposed: false },
            FieldModel { name: "readonly"@, declared_type: "bool"@, exposed: false },
            FieldModel { name: "class"@, declared_type: "Option"@, exposed: false },
        ],
    }
}

/// The members of the record that writes a [`TextField`], in declaration order.
pub open spec fn text_field_members(m: TextFieldModel) -> Seq<ValueModel> {
    seq![
        ValueModel::Text(m.value),
        ValueModel::Text(m.label),
        value_of_text_option(m.name),
        value_of_text_option(m.id),
        value_of_text_option(m.placeholder),
        ValueModel::Bool(m.disabled),
        ValueModel::Bool(m.readonly),
        value_of_text_option(m.class),
    ]
}

/// The [`TextField`] that a value writes, if it writes one.
pub open spec fn text_field_in(value: ValueModel) -> Option<TextFieldModel> {
    match value {
        ValueModel::Record(members) => if members.len() == 8
            && text_in(members[0]) is Some
            && text_in(members[1]) is Some
            && text_option_in(members[2]) is Some
            && text_option_in(members[3]) is Some
            && text_option_in(members[4]) is Some
            && bool_in(members[5]) is Some
            && bool_in(members[6]) is Some
            && text_option_in(members[7]) is Some
        {
            Some(
                TextFieldModel {
                    value: text_in(members[0])->0,
                    label: text_in(members[1])->0,
                    name: text_option_in(members[2])->0,
                    id: text_option_in(members[3])->0,
                    placeholder: text_option_in(members[4])->0,
                    disabled: bool_in(members[5])->0,
                    readonly: bool_in(members[6])->0,
                    class: text_option_in(members[7])->0,
                },
            )
        } else {
            None
        },
        _ => None,
    }
}

/// Reading what was written gives the same [`TextField`] back.
pub proof fn law_text_field_read_back(m: TextFieldModel)
    ensures
        text_field_in(ValueModel::Record(text_field_members(m))) == Some(m),
{
}

impl Default for TextField {
    fn default() -> (r: Self)
        ensures
            r@ == text_field_default(),
    {
        TextField {
            value: String::new(),
            label: String::new(),
            name: None,
            id: None,
            placeholder: None,
            disabled: false,
            readonly: false,
            class: None,
        }
    }
}

impl TextField {
    /// The default component under the given label.
    pub fn labelled(label: &str) -> (r: Self)
        ensures
            r@ == (TextFieldModel { label: label@, ..text_field_default() }),
    {
        let mut r = TextField::default();
        r.label = label.to_owned();
        r
    }

    /// The schema of this type.
    pub fn schema() -> (r: DomainSchema)
        ensures
            r@ == text_field_schema(),
    {
        let mut fields: Vec<FieldDescriptor> = Vec::new();
        fields.push(FieldDescriptor::new("value", "String", true));
        fields.push(FieldDescriptor::new("label", "String", false));
        fields.push(FieldDescriptor::new("name", "Option", false));
        fields.push(FieldDescriptor::new("id", "Option", false));
        fields.push(FieldDescriptor::new("placeholder", "Option", false));
        fields.push(FieldDescriptor::new("disabled", "bool", false));
        fields.push(FieldDescriptor::new("readonly", "bool", false));
        fields.push(FieldDescriptor::new("class", "Option", false));
        let r = DomainSchema { name: "TextField".to_owned(), fields };
        assert(r@.fields =~= text_field_schema().fields);
        r
    }

    /// The members of the record that writes this component.
    pub fn to_members(&self) -> (r: Vec<Value>)
        ensures
            models(r@) == text_field_members(self@),
    {
        let mut members: Vec<Value> = Vec::new();
        members.push(text_value(&self.value));
        members.push(text_value(&self.label));
        members.push(text_option_value(&self.name));
        members.push(text_option_value(&self.id));
        members.push(text_option_value(&self.placeholder));
        members.push(Value::Bool(self.disabled));
        members.push(Value::Bool(self.readonly));
        members.push(text_option_value(&self.class));
        assert(models(members@) =~= text_field_members(self@));
        members
    }

    /// Writes this component as a value.
    pub fn to_value(&self) -> (r: Value)
        ensures
            r@ == ValueModel::Record(text_field_members(self@)),
    {
        let members = self.to_members();
        proof {
            lemma_record_model(members);
        }
        Value::Record(members)
    }

    /// Reads a component from a value.
    pub fn from_value(value: &Value) -> (r: Option<Self>)
        ensures
            match r {
                Some(read) => text_field_in(value@) == Some(read@),
                None => text_field_in(value@) is None,
            },
    {
        match value {
            Value::Record(members) => {
                proof {
                    lemma_record_model(*members);
                }
                if members.len() != 8 {
                    return None;
                }
                assert(models(members@)[0] == members[0]@);
                let value = match read_text(&members[0]) {
                    Some(read) => read,
                    None => {
                        return None;
                    },
                };
                assert(models(members@)[1] == members[1]@);
                let label = match read_text(&members[1]) {
                    Some(read) => read,
                    None => {
                        return None;
                    },
                };
                assert(models(members@)[2] == members[2]@);
                let name = match read_text_option(&members[2]) {
                    Some(read) => read,
                    None => {
                        return None;
                    },
                };
                assert(models(members@)[3] == members[3]@);
                let id = match read_text_option(&members[3]) {
                    Some(read) => read,
                    None => {
                        return None;
                    },
                };
                assert(models(members@)[4] == members[4]@);
                let placeholder = match read_text_option(&members[4]) {
                    Some(read) => read,
                    None => {
                        return None;
                    },
                };
                assert(models(members@)[5] == members[5]@);
                let disabled = match read_bool(&members[5]) {
                    Some(read) => read,
                    None => {
                        return None;
                    },
                };
                assert(models(members@)[6] == members[6]@);
                let readonly = match read_bool(&members[6]) {
                    Some(read) => read,
                    None => {
                        return None;
                    },
                };
                assert(models(members@)[7] == members[7]@);
                let class = match read_text_option(&members[7]) {
                    Some(read) => read,
                    None => {
                        return None;
                    },
                };
                Some(TextField { value, label, name, id, placeholder, disabled, readonly, class })
            },
            _ => None,
        }
    }

    /// This type as generation knows it: its schema, and its default
    /// value member by member.
    pub fn composite() -> (r: CompositeType)
        ensures
            r@ == (TypeModel {
                schema: text_field_schema(),
                default: text_field_members(text_field_default()),
            }),
    {
        CompositeType { schema: TextField::schema(), default: TextField::default().to_members() }
    }
}

/// A multi-line text input.
#[derive(Clone, Debug, PartialEq, Eq)]
pub struct TextAreaField {
    pub value: String,
    pub label: String,
    pub name: Option<String>,
    pub id: Option<String>,
    pub placeholder: Option<String>,
    pub disabled: bool,
    pub readonly: bool,
    pub class: Option<String>,
    pub rows: Option<u32>,
    pub cols: Option<u32>,
}

/// What a [`TextAreaField`] denotes.
pub struct TextAreaFieldModel {
    pub value: Seq<char>,
    pub label: Seq<char>,
    pub name: Option<Seq<char>>,
    pub id: Option<Seq<char>>,
    pub placeholder: Option<Seq<char>>,
    pub disabled: bool,
    pub readonly: bool,
    pub class: Option<Seq<char>>,
    pub rows: Option<u32>,
    pub cols: Option<u32>,
}

impl View for TextAreaField {
    type V = TextAreaFieldModel;

    open spec fn view(&self) -> TextAreaFieldModel {
        TextAreaFieldModel {
            value: self.value@,
            label: self.label@,
            name: text_option(self.name),
            id: text_option(self.id),
            placeholder: text_option(self.placeholder),
            disabled: self.disabled,
            readonly: self.readonly,
            class: text_option(self.class),
            rows: self.rows,
            cols: self.cols,
        }
    }
}

/// The default multi-line text input.
pub open spec fn text_area_field_default() -> TextAreaFieldModel {
    TextAreaFieldModel {
        value: Seq::empty(),
        label: Seq::empty(),
        name: None,
        id: None,
        placeholder: None,
        disabled: false,
        readonly: false,
        class: None,
        rows: Some(4u32),
        cols: None,
    }
}

/// The schema of [`TextAreaField`]: only `value` is exposed.
pub open spec fn text_area_field_schema() -> SchemaModel {
    SchemaModel {
        name: "TextAreaField"@,
        fields: seq![
            FieldModel { name: "value"@, declared_type: "String"@, exposed: true },
            FieldModel { name: "label"@, declared_type: "String"@, exposed: false },
            FieldModel { name: "name"@, declared_type: "Option"@, exposed: false },
            FieldModel { name: "id"@, declared_type: "Option"@, exposed: false },
            FieldModel { name: "placeholder"@, declared_type: "Option"@, exposed: false },
            FieldModel { name: "disabled"@, declared_type: "bool"@, exposed: false },
            FieldModel { name: "readonly"@, declared_type: "bool"@, exposed: false },
            FieldModel { name: "class"@, declared_type: "Option"@, exposed: false },
            FieldModel { name: "rows"@, declared_type: "Option"@, exposed: false },
            FieldModel { name: "cols"@, declared_type: "Option"@, exposed: false },
        ],
    }
}

/// The members of the record that writes a [`TextAreaField`], in declaration order.
pub open spec fn text_area_field_members(m: TextAreaFieldModel) -> Seq<ValueModel> {
    seq![
        ValueModel::Text(m.value),
        ValueModel::Text(m.label),
        value_of_text_option(m.name),
        value_of_text_option(m.id),
        value_of_text_option(m.placeholder),
        ValueModel::Bool(m.disabled),
        ValueModel::Bool(m.readonly),
        value_of_text_option(m.class),
        value_of_count_option(m.rows),
        value_of_count_option(m.cols),
    ]
}

/// The [`TextAreaField`] that a value writes, if it writes one.
pub open spec fn text_area_field_in(value: ValueModel) -> Option<TextAreaFieldModel> {
    match value {
        ValueModel::Record(members) => if members.len() == 10
            && text_in(members[0]) is Some
            && text_in(members[1]) is Some
            && text_option_in(members[2]) is Some
            && text_option_in(members[3]) is Some
            && text_option_in(members[4]) is Some
            && bool_in(members[5]) is Some
            && bool_in(members[6]) is Some
            && text_option_in(members[7]) is Some
            && count_option_in(members[8]) is Some
            && count_option_in(members[9]) is Some
        {
            Some(
                TextAreaFieldModel {
                    value: text_in(members[0])->0,
                    label: text_in(members[1])->0,
                    name: text_option_in(members[2])->0,
                    id: text_option_in(members[3])->0,
                    placeholder: text_option_in(members[4])->0,
                    disabled: bool_in(members[5])->0,
                    readonly: bool_in(members[6])->0,
                    class: text_option_in(members[7])->0,
                    rows: count_option_in(members[8])->0,
                    cols: count_option_in(members[9])->0,
                },
            )
        } else {
            None
        },
        _ => None,
    }
}

/// Reading what was written gives the same [`TextAreaField`] back.
pub proof fn law_text_area_field_read_back(m: TextAreaFieldModel)
    ensures
        text_area_field_in(ValueModel::Record(text_area_field_members(m))) == Some(m),
{
}

impl Default for TextAreaField {
    fn default() -> (r: Self)
        ensures
            r@ == text_area_field_default(),
    {
        TextAreaField {
            value: String::new(),
            label: String::new(),
            name: None,
            id: None,
            placeholder: None,
            disabled: false,
            readonly: false,
            class: None,
            rows: Some(4),
            cols: None,
        }
    }
}

impl TextAreaField {
    /// The default component under the given label.
    pub fn labelled(label: &str) -> (r: Self)
        ensures
            r@ == (TextAreaFieldModel { label: label@, ..text_area_field_default() }),
    {
        let mut r = TextAreaField::default();
        r.label = label.to_owned();
        r
    }

    /// The schema of this type.
    pub fn schema() -> (r: DomainSchema)
        ensures
            r@ == text_area_field_schema(),
    {
        let mut fields: Vec<FieldDescriptor> = Vec::new();
        fields.push(FieldDescriptor::new("value", "String", true));
        fields.push(FieldDescriptor::new("label", "String", false));
        fields.push(FieldDescriptor::new("name", "Option", false));
        fields.push(FieldDescriptor::new("id", "Option", false));
        fields.push(FieldDescriptor::new("placeholder", "Option", false));
        fields.push(FieldDescriptor::new("disabled", "bool", false));
        fields.push(FieldDescriptor::new("readonly", "bool", false));
        fields.push(FieldDescriptor::new("class", "Option", false));
        fields.push(FieldDescriptor::new("rows", "Option", false));
        fields.push(FieldDescriptor::new("cols", "Option", false));
        let r = DomainSchema { name: "TextAreaField".to_owned(), fields };
        assert(r@.fields =~= text_area_field_schema().fields);
        r
    }

    /// The members of the record that writes this component.
    pub fn to_members(&self) -> (r: Vec<Value>)
        ensures
            models(r@) == text_area_field_members(self@),
    {
        let mut members: Vec<Value> = Vec::new();
        members.push(text_value(&self.value));
        members.push(text_value(&self.label));
        members.push(text_option_value(&self.name));
        members.push(text_option_value(&self.id));
        members.push(text_option_value(&self.placeholder));
        members.push(Value::Bool(self.disabled));
        members.push(Value::Bool(self.readonly));
        members.push(text_option_value(&self.class));
        members.push(count_option_value(&self.rows));
        members.push(count_option_value(&self.cols));
        assert(models(members@) =~= text_area_field_members(self@));
        members
    }

    /// Writes this component as a value.
    pub fn to_value(&self) -> (r: Value)
        ensures
            r@ == ValueModel::Record(text_area_field_members(self@)),
    {
        let members = self.to_members();
        proof {
            lemma_record_model(members);
        }
        Value::Record(members)
    }

    /// Reads a component from a value.
    pub fn from_value(value: &Value) -> (r: Option<Self>)
        ensures
            match r {
                Some(read) => text_area_field_in(value@) == Some(read@),
                None => text_area_field_in(value@) is None,
            },
    {
        match value {
            Value::Record(members) => {
                proof {
                    lemma_record_model(*members);
                }
                if members.len() != 10 {
                    return None;
                }
                assert(models(members@)[0] == members[0]@);
                let value = match read_text(&members[0]) {
                    Some(read) => read,
                    None => {
                        return None;
                    },
                };
                assert(models(members@)[1] == members[1]@);
                let label = match read_text(&members[1]) {
                    Some(read) => read,
                    None => {
                        return None;
                    },
                };
                assert(models(members@)[2] == members[2]@);
                let name = match read_text_option(&members[2]) {
                    Some(read) => read,
                    None => {
                        return None;
                    },
                };
                assert(models(members@)[3] == members[3]@);
                let id = match read_text_option(&members[3]) {
                    Some(read) => read,
                    None => {
                        return None;
                    },
                };
                assert(models(members@)[4] == members[4]@);
                let placeholder = match read_text_option(&members[4]) {
                    Some(read) => read,
                    None => {
                        return None;
                    },
                };
                assert(models(members@)[5] == members[5]@);
                let disabled = match read_bool(&members[5]) {
                    Some(read) => read,
                    None => {
                        return None;
                    },
                };
                assert(models(members@)[6] == members[6]@);
                let readonly = match read_bool(&members[6]) {
                    Some(read) => read,
                    None => {
                        return None;
                    },
                };
                assert(models(members@)[7] == members[7]@);
                let class = match read_text_option(&members[7]) {
                    Some(read) => read,
                    None => {
                        return None;
                    },
                };
                assert(models(members@)[8] == members[8]@);
                let rows = match read_count_option(&members[8]) {
                    Some(read) => read,
                    None => {
                        return None;
                    },
                };
                assert(models(members@)[9] == members[9]@);
                let cols = match read_count_option(&members[9]) {
                    Some(read) => read,
                    None => {
                        return None;
                    },
                };
                Some(
                    TextAreaField {
                        value,
                        label,
                        name,
                        id,
                        placeholder,
                        disabled,
                        readonly,
                        class,
                        rows,
                        cols,
                    },
                )
            },
            _ => None,
        }
    }

    /// This type as generation knows it: its schema, and its default
    /// value member by member.
    pub fn composite() -> (r: CompositeType)
        ensures
            r@ == (TypeModel {
                schema: text_area_field_schema(),
                default: text_area_field_members(text_area_field_default()),
            }),
    {
        CompositeType {
            schema: TextAreaField::schema(),
            default: TextAreaField::default().to_members(),
        }
    }
}

/// A job application: one form component for each question.
#[derive(Clone, Debug, PartialEq, Eq)]
pub struct JobApplicationForm {
    pub name: TextField,
    pub programming_story: TextAreaField,
    pub ultimate_project: TextAreaField,
    pub proud_work: TextAreaField,
    pub future_skills: TextAreaField,
    pub oncall_stories: TextAreaField,
    pub focus_strategies: TextAreaField,
    pub support_systems: TextAreaField,
    pub comfort_food: TextAreaField,
    pub weekend: TextAreaField,
    pub travel_wish: TextAreaField,
}

/// What a [`JobApplicationForm`] denotes.
pub struct JobApplicationModel {
    pub name: TextFieldModel,
    pub programming_story: TextAreaFieldModel,
    pub ultimate_project: TextAreaFieldModel,
    pub proud_work: TextAreaFieldModel,
    pub future_skills: TextAreaFieldModel,
    pub oncall_stories: TextAreaFieldModel,
    pub focus_strategies: TextAreaFieldModel,
    pub support_systems: TextAreaFieldModel,
    pub comfort_food: TextAreaFieldModel,
    pub weekend: TextAreaFieldModel,
    pub travel_wish: TextAreaFieldModel,
}

impl View for JobApplicationForm {
    type V = JobApplicationModel;

    open spec fn view(&self) -> JobApplicationModel {
        JobApplicationModel {
            name: self.name@,
            programming_story: self.programming_story@,
            ultimate_project: self.ultimate_project@,
            proud_work: self.proud_work@,
            future_skills: self.future_skills@,
            oncall_stories: self.oncall_stories@,
            focus_strategies: self.focus_strategies@,
            support_systems: self.support_systems@,
            comfort_food: self.comfort_food@,
            weekend: self.weekend@,
            travel_wish: self.travel_wish@,
        }
    }
}

/// The default application: every component is its type's default.
pub open spec fn application_default() -> JobApplicationModel {
    JobApplicationModel {
        name: text_field_default(),
        programming_story: text_area_field_default(),
        ultimate_project: text_area_field_default(),
        proud_work: text_area_field_default(),
        future_skills: text_area_field_default(),
        oncall_stories: text_area_field_default(),
        focus_strategies: text_area_field_default(),
        support_systems: text_area_field_default(),
        comfort_food: text_area_field_default(),
        weekend: text_area_field_default(),
        travel_wish: text_area_field_default(),
    }
}

/// The application that is shown for filling in: every component is its
/// type's default under the question it asks.
pub open spec fn application_blank() -> JobApplicationModel {
    JobApplicationModel {
        name: TextFieldModel {
            label: "Full Name"@,
            ..text_field_default()
        },
        programming_story: TextAreaFieldModel {
            label: "5Ws got you into programming?"@,
            ..text_area_field_default()
        },
        ultimate_project: TextAreaFieldModel {
            label: "Ultimate project right now?"@,
            ..text_area_field_default()
        },
        proud_work: TextAreaFieldModel {
            label: "One piece of work you're most proud of"@,
            ..text_area_field_default()
        },
        future_skills: TextAreaFieldModel {
            label: "Skills you want to master in 3-5 years"@,
            ..text_area_field_default()
        },
        oncall_stories: TextAreaFieldModel {
            label: "Any on-call horror stories?"@,
            ..text_area_field_default()
        },
        focus_strategies: TextAreaFieldModel {
            label: "Strategies to stay focused & present"@,
            ..text_area_field_default()
        },
        support_systems: TextAreaFieldModel {
            label: "Support systems you rely on & how we can help"@,
            ..text_area_field_default()
        },
        comfort_food: TextAreaFieldModel {
            label: "Favourite comfort food & why"@,
            ..text_area_field_default()
        },
        weekend: TextAreaFieldModel {
            label: "How do you spend your weekends?"@,
            ..text_area_field_default()
        },
        travel_wish: TextAreaFieldModel {
            label: "If you could travel anywhere …"@,
            ..text_area_field_default()
        },
    }
}

/// The schema of [`JobApplicationForm`]: no field is exposed, and every
/// field is a form component.
pub open spec fn application_schema() -> SchemaModel {
    SchemaModel {
        name: "JobApplicationForm"@,
        fields: seq![
            FieldModel { name: "name"@, declared_type: "TextField"@, exposed: false },
            FieldModel {
                name: "programming_story"@,
                declared_type: "TextAreaField"@,
                exposed: false,
            },
            FieldModel {
                name: "ultimate_project"@,
                declared_type: "TextAreaField"@,
                exposed: false,
            },
            FieldModel { name: "proud_work"@, declared_type: "TextAreaField"@, exposed: false },
            FieldModel { name: "future_skills"@, declared_type: "TextAreaField"@, exposed: false },
            FieldModel { name: "oncall_stories"@, declared_type: "TextAreaField"@, exposed: false },
            FieldModel {
                name: "focus_strategies"@,
                declared_type: "TextAreaField"@,
                exposed: false,
            },
            FieldModel {
                name: "support_systems"@,
                declared_type: "TextAreaField"@,
                exposed: false,
            },
            FieldModel { name: "comfort_food"@, declared_type: "TextAreaField"@, exposed: false },
            FieldModel { name: "weekend"@, declared_type: "TextAreaField"@, exposed: false },
            FieldModel { name: "travel_wish"@, declared_type: "TextAreaField"@, exposed: false },
        ],
    }
}

/// The members of the record that writes an application, in declaration
/// order.
pub open spec fn application_members(m: JobApplicationModel) -> Seq<ValueModel> {
    seq![
        ValueModel::Record(text_field_members(m.name)),
        ValueModel::Record(text_area_field_members(m.programming_story)),
        ValueModel::Record(text_area_field_members(m.ultimate_project)),
        ValueModel::Record(text_area_field_members(m.proud_work)),
        ValueModel::Record(text_area_field_members(m.future_skills)),
        ValueModel::Record(text_area_field_members(m.oncall_stories)),
        ValueModel::Record(text_area_field_members(m.focus_strategies)),
        ValueModel::Record(text_area_field_members(m.support_systems)),
        ValueModel::Record(text_area_field_members(m.comfort_food)),
        ValueModel::Record(text_area_field_members(m.weekend)),
        ValueModel::Record(text_area_field_members(m.travel_wish)),
    ]
}

/// The application that the members of a record write, if they write one.
pub open spec fn application_in(members: Seq<ValueModel>) -> Option<JobApplicationModel> {
    if members.len() == 11
        && text_field_in(members[0]) is Some
        && text_area_field_in(members[1]) is Some
        && text_area_field_in(members[2]) is Some
        && text_area_field_in(members[3]) is Some
        && text_area_field_in(members[4]) is Some
        && text_area_field_in(members[5]) is Some
        && text_area_field_in(members[6]) is Some
        && text_area_field_in(members[7]) is Some
        && text_area_field_in(members[8]) is Some
        && text_area_field_in(members[9]) is Some
        && text_area_field_in(members[10]) is Some
    {
        Some(
            JobApplicationModel {
                name: text_field_in(members[0])->0,
                programming_story: text_area_field_in(members[1])->0,
                ultimate_project: text_area_field_in(members[2])->0,
                proud_work: text_area_field_in(members[3])->0,
                future_skills: text_area_field_in(members[4])->0,
                oncall_stories: text_area_field_in(members[5])->0,
                focus_strategies: text_area_field_in(members[6])->0,
                support_systems: text_area_field_in(members[7])->0,
                comfort_food: text_area_field_in(members[8])->0,
                weekend: text_area_field_in(members[9])->0,
                travel_wish: text_area_field_in(members[10])->0,
            },
        )
    } else {
        None
    }
}

/// Reading what was written gives the same application back.
pub proof fn law_application_read_back(m: JobApplicationModel)
    ensures
        application_in(application_members(m)) == Some(m),
{
    let members = application_members(m);
    assert(members.len() == 11);
    assert(text_field_in(members[0]) == Some(m.name)) by {
        law_text_field_read_back(m.name);
    }
    assert(text_area_field_in(members[1]) == Some(m.programming_story)) by {
        law_text_area_field_read_back(m.programming_story);
    }
    assert(text_area_field_in(members[2]) == Some(m.ultimate_project)) by {
        law_text_area_field_read_back(m.ultimate_project);
    }
    assert(text_area_field_in(members[3]) == Some(m.proud_work)) by {
        law_text_area_field_read_back(m.proud_work);
    }
    assert(text_area_field_in(members[4]) == Some(m.future_skills)) by {
        law_text_area_field_read_back(m.future_skills);
    }
    assert(text_area_field_in(members[5]) == Some(m.oncall_stories)) by {
        law_text_area_field_read_back(m.oncall_stories);
    }
    assert(text_area_field_in(members[6]) == Some(m.focus_strategies)) by {
        law_text_area_field_read_back(m.focus_strategies);
    }
    assert(text_area_field_in(members[7]) == Some(m.support_systems)) by {
        law_text_area_field_read_back(m.support_systems);
    }
    assert(text_area_field_in(members[8]) == Some(m.comfort_food)) by {
        law_text_area_field_read_back(m.comfort_food);
    }
    assert(text_area_field_in(members[9]) == Some(m.weekend)) by {
        law_text_area_field_read_back(m.weekend);
    }
    assert(text_area_field_in(members[10]) == Some(m.travel_wish)) by {
        law_text_area_field_read_back(m.travel_wish);
    }
}

impl Default for JobApplicationForm {
    fn default() -> (r: Self)
        ensures
            r@ == application_default(),
    {
        JobApplicationForm {
            name: TextField::default(),
            programming_story: TextAreaField::default(),
            ultimate_project: TextAreaField::default(),
            proud_work: TextAreaField::default(),
            future_skills: TextAreaField::default(),
            oncall_stories: TextAreaField::default(),
            focus_strategies: TextAreaField::default(),
            support_systems: TextAreaField::default(),
            comfort_food: TextAreaField::default(),
            weekend: TextAreaField::default(),
            travel_wish: TextAreaField::default(),
        }
    }
}

impl JobApplicationForm {
    /// The application that is shown for filling in.
    pub fn blank() -> (r: Self)
        ensures
            r@ == application_blank(),
    {
        JobApplicationForm {
            name: TextField::labelled("Full Name"),
            programming_story: TextAreaField::labelled("5Ws got you into programming?"),
            ultimate_project: TextAreaField::labelled("Ultimate project right now?"),
            proud_work: TextAreaField::labelled("One piece of work you're most proud of"),
            future_skills: TextAreaField::labelled("Skills you want to master in 3-5 years"),
            oncall_stories: TextAreaField::labelled("Any on-call horror stories?"),
            focus_strategies: TextAreaField::labelled("Strategies to stay focused & present"),
            support_systems: TextAreaField::labelled(
                "Support systems you rely on & how we can help",
            ),
            comfort_food: TextAreaField::labelled("Favourite comfort food & why"),
            weekend: TextAreaField::labelled("How do you spend your weekends?"),
            travel_wish: TextAreaField::labelled("If you could travel anywhere …"),
        }
    }

    /// The schema of this type.
    pub fn schema() -> (r: DomainSchema)
        ensures
            r@ == application_schema(),
    {
        let mut fields: Vec<FieldDescriptor> = Vec::new();
        fields.push(FieldDescriptor::new("name", "TextField", false));
        fields.push(FieldDescriptor::new("programming_story", "TextAreaField", false));
        fields.push(FieldDescriptor::new("ultimate_project", "TextAreaField", false));
        fields.push(FieldDescriptor::new("proud_work", "TextAreaField", false));
        fields.push(FieldDescriptor::new("future_skills", "TextAreaField", false));
        fields.push(FieldDescriptor::new("oncall_stories", "TextAreaField", false));
        fields.push(FieldDescriptor::new("focus_strategies", "TextAreaField", false));
        fields.push(FieldDescriptor::new("support_systems", "TextAreaField", false));
        fields.push(FieldDescriptor::new("comfort_food", "TextAreaField", false));
        fields.push(FieldDescriptor::new("weekend", "TextAreaField", false));
        fields.push(FieldDescriptor::new("travel_wish", "TextAreaField", false));
        let r = DomainSchema { name: "JobApplicationForm".to_owned(), fields };
        assert(r@.fields =~= application_schema().fields);
        r
    }

    /// The composite types that the schema names.
    pub fn catalogue() -> (r: Vec<CompositeType>)
        ensures
            r.len() == 3,
            r[0]@ == (TypeModel {
                schema: text_field_schema(),
                default: text_field_members(text_field_default()),
            }),
            r[1]@ == (TypeModel {
                schema: text_area_field_schema(),
                default: text_area_field_members(text_area_field_default()),
            }),
            r[2]@ == (TypeModel {
                schema: SchemaModel { name: "Option"@, fields: Seq::empty() },
                default: Seq::empty(),
            }),
    {
        let mut types: Vec<CompositeType> = Vec::new();
        types.push(TextField::composite());
        types.push(TextAreaField::composite());
        types.push(option_type());
        types
    }

    /// The members of the record that writes this application: the domain
    /// value that the conversions take.
    pub fn to_members(&self) -> (r: Vec<Value>)
        ensures
            models(r@) == application_members(self@),
    {
        let mut members: Vec<Value> = Vec::new();
        members.push(self.name.to_value());
        members.push(self.programming_story.to_value());
        members.push(self.ultimate_project.to_value());
        members.push(self.proud_work.to_value());
        members.push(self.future_skills.to_value());
        members.push(self.oncall_stories.to_value());
        members.push(self.focus_strategies.to_value());
        members.push(self.support_systems.to_value());
        members.push(self.comfort_food.to_value());
        members.push(self.weekend.to_value());
        members.push(self.travel_wish.to_value());
        assert(models(members@) =~= application_members(self@));
        members
    }

    /// Reads an application from the members of a record: the domain value
    /// that the conversions give.
    pub fn from_members(members: &Vec<Value>) -> (r: Option<Self>)
        ensures
            match r {
                Some(read) => application_in(models(members@)) == Some(read@),
                None => application_in(models(members@)) is None,
            },
    {
        if members.len() != 11 {
            return None;
        }
        assert(models(members@)[0] == members[0]@);
        let name = match TextField::from_value(&members[0]) {
            Some(read) => read,
            None => {
                return None;
            },
        };
        assert(models(members@)[1] == members[1]@);
        let programming_story = match TextAreaField::from_value(&members[1]) {
            Some(read) => read,
            None => {
                return None;
            },
        };
        assert(models(members@)[2] == members[2]@);
        let ultimate_project = match TextAreaField::from_value(&members[2]) {
            Some(read) => read,
            None => {
                return None;
            },
        };
        assert(models(members@)[3] == members[3]@);
        let proud_work = match TextAreaField::from_value(&members[3]) {
            Some(read) => read,
            None => {
                return None;
            },
        };
        assert(models(members@)[4] == members[4]@);
        let future_skills = match TextAreaField::from_value(&members[4]) {
            Some(read) => read,
            None => {
                return None;
            },
        };
        assert(models(members@)[5] == members[5]@);
        let oncall_stories = match TextAreaField::from_value(&members[5]) {
            Some(read) => read,
            None => {
                return None;
            },
        };
        assert(models(members@)[6] == members[6]@);
        let focus_strategies = match TextAreaField::from_value(&members[6]) {
            Some(read) => read,
            None => {
                return None;
            },
        };
        assert(models(members@)[7] == members[7]@);
        let support_systems = match TextAreaField::from_value(&members[7]) {
            Some(read) => read,
            None => {
                return None;
            },
        };
        assert(models(members@)[8] == members[8]@);
        let comfort_food = match TextAreaField::from_value(&members[8]) {
            Some(read) => read,
            None => {
                return None;
            },
        };
        assert(models(members@)[9] == members[9]@);
        let weekend = match TextAreaField::from_value(&members[9]) {
            Some(read) => read,
            None => {
                return None;
            },
        };
        assert(models(members@)[10] == members[10]@);
        let travel_wish = match TextAreaField::from_value(&members[10]) {
            Some(read) => read,
            None => {
                return None;
            },
        };
        Some(
            JobApplicationForm {
                name,
                programming_story,
                ultimate_project,
                proud_work,
                future_skills,
                oncall_stories,
                focus_strategies,
                support_systems,
                comfort_food,
                weekend,
                travel_wish,
            },
        )
    }
}

} // verus!
