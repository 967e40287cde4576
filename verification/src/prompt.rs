//! The Markdown prompt built from a blueprint and the values of its form.
use vstd::prelude::*;
use crate::blueprint::{Blueprint, Field, FieldType, FieldVal, Section};
use crate::form::{Form, FormView};
use crate::text;

verus! {

/// The key of the list of extra crates that is printed before the sections.
pub open spec fn additional_crates_key() -> Seq<char> {
    "tech.additional_crates"@
}

/// `prefix item "\n"` for every item, one after the other.
pub open spec fn item_lines(items: Seq<Seq<char>>, prefix: Seq<char>) -> Seq<char>
    decreases items.len(),
{
    if items.len() == 0 {
        Seq::empty()
    } else {
        item_lines(items.drop_last(), prefix) + prefix + items.last() + "\n"@
    }
}

/// The lines that one field contributes to its section.
pub open spec fn field_text(f: Field, form: FormView) -> Seq<char> {
    let v = form.value_at(f.key@);
    if f.field_type == FieldType::SectionBreak || v.empty() {
        Seq::empty()
    } else {
        match f.field_type {
            FieldType::Checkbox => if v.flag() {
                "- "@ + f.label@ + " "@ + (if f.description@.len() != 0 {
                    "("@ + f.description@ + ")"@
                } else {
                    Seq::empty()
                }) + "\n"@
            } else {
                Seq::empty()
            },
            FieldType::Select => "- **"@ + f.label@ + ":** "@ + v.text() + "\n"@,
            FieldType::Multiselect => if v.items().len() != 0 {
                "- **"@ + f.label@ + ":** "@ + text::join(v.items(), ", "@) + "\n"@
            } else {
                Seq::empty()
            },
            FieldType::Textarea => if v.text().len() != 0 {
                "### "@ + f.label@ + "\n\n"@ + "```\n"@ + v.text() + "\n```\n\n"@
            } else {
                Seq::empty()
            },
            FieldType::ListBuilder => if v.items().len() != 0 {
                "### "@ + f.label@ + "\n\n"@ + item_lines(v.items(), "- "@) + "\n"@
            } else {
                Seq::empty()
            },
            _ => if v.text().len() != 0 {
                "- **"@ + f.label@ + ":** "@ + v.text() + "\n"@
            } else {
                Seq::empty()
            },
        }
    }
}

/// The lines of all `fields`, in order.
pub open spec fn fields_text(fields: Seq<Field>, form: FormView) -> Seq<char>
    decreases fields.len(),
{
    if fields.len() == 0 {
        Seq::empty()
    } else {
        fields_text(fields.drop_last(), form) + field_text(fields.last(), form)
    }
}

/// The heading, description and fields of one section.
pub open spec fn section_text(s: Section, form: FormView) -> Seq<char> {
    "## "@ + s.icon@ + " "@ + s.title@ + "\n\n"@ + (if s.description@.len() != 0 {
        s.description@ + "\n\n"@
    } else {
        Seq::empty()
    }) + fields_text(s.fields@, form) + "\n"@
}

/// All sections, in order.
pub open spec fn sections_text(sections: Seq<Section>, form: FormView) -> Seq<char>
    decreases sections.len(),
{
    if sections.len() == 0 {
        Seq::empty()
    } else {
        sections_text(sections.drop_last(), form) + section_text(sections.last(), form)
    }
}

/// The title, time stamp, description and instructions that open a prompt.
pub open spec fn prompt_head(bp: Blueprint, generated_at: Seq<char>) -> Seq<char> {
    "# "@ + bp.name@ + " Development Prompt\n\n"@ + "Generated: "@ + generated_at + " UTC\n\n"@
        + "---\n\n"@ + (if bp.description@.len() != 0 {
        bp.description@ + "\n\n"@
    } else {
        Seq::empty()
    })
        + "You are a senior developer. Create a production-ready application with the following specifications:\n\n"@
}

/// The list of extra crates, when there is one.
pub open spec fn crates_text(form: FormView) -> Seq<char> {
    let crates = form.value_at(additional_crates_key()).items();
    if crates.len() != 0 {
        "- **Additional Crates:**\n"@ + item_lines(crates, "  - "@)
    } else {
        Seq::empty()
    }
}

/// The closing output requirements.
pub open spec fn prompt_tail() -> Seq<char> {
    "---\n\n"@ + "## Output Requirements\n\n"@ + "1. Show the complete project structure\n"@
        + "2. Provide all source files in fenced code blocks\n"@ + "3. Include configuration files\n"@
        + "4. Add a comprehensive README.md\n"@ + "5. Include setup and usage instructions\n"@
        + "6. If response is too long, split into parts\n"@
        + "7. Search the web and use the most up-to-date dependencies & technologies\n\n"@
        + "Generate the complete application now.\n"@
}

/// The whole prompt for `bp` filled in as `form`, generated at `generated_at`.
pub open spec fn prompt_text(bp: Blueprint, form: FormView, generated_at: Seq<char>) -> Seq<char> {
    prompt_head(bp, generated_at) + crates_text(form) + sections_text(bp.sections@, form)
        + prompt_tail()
}

fn push_item_lines(out: &mut String, items: &Vec<String>, prefix: &str)
    ensures
        final(out)@ == old(out)@ + item_lines(text::views(items@), prefix@),
{
    let mut i: usize = 0;
    while i < items.len()
        invariant
            i <= items.len(),
            out@ == old(out)@ + item_lines(text::views(items@.subrange(0, i as int)), prefix@),
        decreases items.len() - i,
    {
        let ghost before = text::views(items@.subrange(0, i as int));
        let ghost after = text::views(items@.subrange(0, i + 1));
        assert(after.drop_last() =~= before);
        out.append(prefix);
        out.append(items[i].as_str());
        out.append("\n");
        i = i + 1;
    }
    assert(items@.subrange(0, items.len() as int) =~= items@);
}

fn push_field(out: &mut String, f: &Field, form: &Form)
    ensures
        final(out)@ == old(out)@ + field_text(*f, form@),
{
    if f.field_type == FieldType::SectionBreak {
        return;
    }
    let value = form.value_at(&f.key);
    if value.is_empty() {
        return;
    }
    match f.field_type {
        FieldType::Checkbox => {
            if value.as_bool() {
                out.append("- ");
                out.append(f.label.as_str());
                out.append(" ");
                if !f.description.as_str().is_empty() {
                    out.append("(");
                    out.append(f.description.as_str());
                    out.append(")");
                }
                out.append("\n");
            }
        },
        FieldType::Select => {
            out.append("- **");
            out.append(f.label.as_str());
            out.append(":** ");
            out.append(value.as_str());
            out.append("\n");
        },
        FieldType::Multiselect => {
            let values = value.as_vec();
            if values.len() != 0 {
                out.append("- **");
                out.append(f.label.as_str());
                out.append(":** ");
                let joined = text::join_strings(&values, ", ");
                out.append(joined.as_str());
                out.append("\n");
            }
        },
        FieldType::Textarea => {
            let t = value.as_str();
            if !t.is_empty() {
                out.append("### ");
                out.append(f.label.as_str());
                out.append("\n\n");
                out.append("```\n");
                out.append(t);
                out.append("\n```\n\n");
            }
        },
        FieldType::ListBuilder => {
            let items = value.as_vec();
            if items.len() != 0 {
                out.append("### ");
                out.append(f.label.as_str());
                out.append("\n\n");
                push_item_lines(out, &items, "- ");
                out.append("\n");
            }
        },
        _ => {
            let t = value.as_str();
            if !t.is_empty() {
                out.append("- **");
                out.append(f.label.as_str());
                out.append(":** ");
                out.append(t);
                out.append("\n");
            }
        },
    }
}

fn push_section(out: &mut String, s: &Section, form: &Form)
    ensures
        final(out)@ == old(out)@ + section_text(*s, form@),
{
    out.append("## ");
    out.append(s.icon.as_str());
    out.append(" ");
    out.append(s.title.as_str());
    out.append("\n\n");
    if !s.description.as_str().is_empty() {
        out.append(s.description.as_str());
        out.append("\n\n");
    }
    let ghost start = out@;
    let fields = &s.fields;
    let mut i: usize = 0;
    while i < fields.len()
        invariant
            i <= fields@.len(),
            out@ == start + fields_text(fields@.subrange(0, i as int), form@),
        decreases fields.len() - i,
    {
        assert(fields@.subrange(0, i + 1).drop_last() =~= fields@.subrange(0, i as int));
        push_field(out, &fields[i], form);
        i = i + 1;
    }
    assert(fields@.subrange(0, fields@.len() as int) =~= fields@);
    out.append("\n");
}

/// The prompt for `blueprint` filled in as `form`, stamped with `generated_at`
/// (a UTC time; " UTC" follows it in the text).
pub fn generate_prompt_at(blueprint: &Blueprint, form: &Form, generated_at: &str) -> (r: String)
    ensures
        r@ == prompt_text(*blueprint, form@, generated_at@),
{
    let mut p = String::new();
    p.append("# ");
    p.append(blueprint.name.as_str());
    p.append(" Development Prompt\n\n");
    p.append("Generated: ");
    p.append(generated_at);
    p.append(" UTC\n\n");
    p.append("---\n\n");
    if !blueprint.description.as_str().is_empty() {
        p.append(blueprint.description.as_str());
        p.append("\n\n");
    }
    p.append(
        "You are a senior developer. Create a production-ready application with the following specifications:\n\n",
    );
    assert(p@ =~= prompt_head(*blueprint, generated_at@));
    let crates = form.get_target_list("tech.additional_crates");
    if crates.len() != 0 {
        p.append("- **Additional Crates:**\n");
        push_item_lines(&mut p, &crates, "  - ");
    }
    let ghost start = p@;
    let sections = &blueprint.sections;
    let mut i: usize = 0;
    while i < sections.len()
        invariant
            i <= sections@.len(),
            p@ == start + sections_text(sections@.subrange(0, i as int), form@),
        decreases sections.len() - i,
    {
        assert(sections@.subrange(0, i + 1).drop_last() =~= sections@.subrange(0, i as int));
        push_section(&mut p, &sections[i], form);
        i = i + 1;
    }
    assert(sections@.subrange(0, sections@.len() as int) =~= sections@);
    p.append("---\n\n");
    p.append("## Output Requirements\n\n");
    p.append("1. Show the complete project structure\n");
    p.append("2. Provide all source files in fenced code blocks\n");
    p.append("3. Include configuration files\n");
    p.append("4. Add a comprehensive README.md\n");
    p.append("5. Include setup and usage instructions\n");
    p.append("6. If response is too long, split into parts\n");
    p.append("7. Search the web and use the most up-to-date dependencies & technologies\n\n");
    p.append("Generate the complete application now.\n");
    p
}

/// The prompt for `blueprint` filled in as `form`, stamped with the current
/// UTC time; `None` when the system clock cannot be read.
pub fn generate_prompt(blueprint: &Blueprint, form: &Form) -> (r: Option<String>)
    ensures
        r matches Some(p) ==> exists|t: Seq<char>| crate::clock::is_timestamp(t) && p@ == prompt_text(*blueprint, form@, t),
{
    match crate::clock::utc_timestamp() {
        Some(now) => Some(generate_prompt_at(blueprint, form, now.as_str())),
        None => None,
    }
}

} // verus!
