//! The live preview beside the form: a styled summary of the filled-in fields.
use vstd::prelude::*;
use crate::blueprint::{Blueprint, BlueprintView, Field, FieldType, FieldView, FieldValue, Section, SectionView};
use crate::form::{Form, FormView};
use crate::text;

verus! {

/// The colour role of a piece of preview text.
#[derive(Debug, Clone, Copy, PartialEq, Eq, Structural)]
pub enum Tone {
    Accent,
    Warning,
    Border,
    Success,
    Text,
    Dim,
}

/// A preview line: pieces of text with their tones.
pub type Line = Vec<(String, Tone)>;

/// The model of a preview line.
pub open spec fn line_view(l: Line) -> Seq<(Seq<char>, Tone)> {
    l@.map_values(|p: (String, Tone)| (p.0@, p.1))
}

/// The models of preview lines.
pub open spec fn lines_view(ls: Seq<Line>) -> Seq<Seq<(Seq<char>, Tone)>> {
    ls.map_values(|l: Line| line_view(l))
}

/// Index of the first `'\n'` of `s` at or after `i` (`s.len()` when none).
pub open spec fn next_newline(s: Seq<char>, i: int) -> int
    decreases s.len() - i,
{
    if i >= s.len() {
        s.len() as int
    } else if s[i] == '\n' {
        i
    } else {
        next_newline(s, i + 1)
    }
}

/// `p` without one trailing `'\r'`.
pub open spec fn strip_cr(p: Seq<char>) -> Seq<char> {
    if p.len() > 0 && p.last() == '\r' {
        p.drop_last()
    } else {
        p
    }
}

/// The lines of `s` from index `start` on, as `str::lines` gives them: split
/// at `'\n'` (a `'\r'` before it is dropped), no line after a final `'\n'`.
pub open spec fn lines_from(s: Seq<char>, start: int) -> Seq<Seq<char>>
    decreases s.len() - start,
{
    if start >= s.len() || start < 0 {
        Seq::empty()
    } else {
        let j = next_newline(s, start);
        proof {
            lemma_next_newline_range(s, start);
        }
        if j < s.len() {
            seq![strip_cr(s.subrange(start, j))] + lines_from(s, j + 1)
        } else {
            seq![s.subrange(start, s.len() as int)]
        }
    }
}

/// The next newline at or after `i` lies between `i` and the end.
pub proof fn lemma_next_newline_range(s: Seq<char>, i: int)
    requires
        0 <= i <= s.len(),
    ensures
        i <= next_newline(s, i) <= s.len(),
    decreases s.len() - i,
{
    if i < s.len() && s[i] != '\n' {
        lemma_next_newline_range(s, i + 1);
    }
}

proof fn lemma_next_newline(s: Seq<char>, a: int, i: int)
    requires
        0 <= a <= i <= s.len(),
        forall|k: int| a <= k < i ==> s[k] != '\n',
    ensures
        next_newline(s, a) == next_newline(s, i),
    decreases i - a,
{
    if a < i {
        lemma_next_newline(s, a + 1, i);
    }
}

/// The lines of `s` (what `str::lines` yields).
pub fn split_lines(s: &str) -> (r: Vec<String>)
    ensures
        text::views(r@) == lines_from(s@, 0),
{
    let n = s.unicode_len();
    let mut out: Vec<String> = Vec::new();
    let mut piece = String::new();
    let mut start: usize = 0;
    let mut i: usize = 0;
    while i < n
        invariant
            n == s@.len(),
            start <= i <= n,
            piece@ == s@.subrange(start as int, i as int),
            forall|k: int| start <= k < i ==> s@[k] != '\n',
            text::views(out@) + lines_from(s@, start as int) == lines_from(s@, 0),
        decreases n - i,
    {
        let c = s.get_char(i);
        if c == '\n' {
            proof {
                lemma_next_newline(s@, start as int, i as int);
                assert(next_newline(s@, start as int) == i);
            }
            let mut line = piece;
            let len = line.as_str().unicode_len();
            if len > 0 && line.as_str().get_char(len - 1) == '\r' {
                let trimmed = text::owned(line.as_str().substring_char(0, len - 1));
                assert(trimmed@ =~= strip_cr(s@.subrange(start as int, i as int)));
                line = trimmed;
            }
            let ghost old_out = out@;
            out.push(line);
            proof {
                assert(text::views(out@) =~= text::views(old_out).push(strip_cr(s@.subrange(start as int, i as int))));
                assert(lines_from(s@, start as int) == seq![strip_cr(s@.subrange(start as int, i as int))] + lines_from(s@, i + 1));
                assert(text::views(out@) + lines_from(s@, i + 1) =~= text::views(old_out) + lines_from(s@, start as int));
            }
            piece = String::new();
            start = i + 1;
            i = i + 1;
            assert(piece@ =~= s@.subrange(start as int, i as int));
        } else {
            text::push_char(&mut piece, c);
            assert(piece@ =~= s@.subrange(start as int, i + 1));
            i = i + 1;
        }
    }
    if start < n {
        proof {
            lemma_next_newline(s@, start as int, n as int);
        }
        let ghost old_out = out@;
        out.push(piece);
        assert(text::views(out@) =~= text::views(old_out) + lines_from(s@, start as int));
    } else {
        assert(text::views(out@) =~= text::views(out@) + lines_from(s@, start as int));
    }
    out
}

/// A line of one piece.
pub open spec fn one(t: Seq<char>, tone: Tone) -> Seq<(Seq<char>, Tone)> {
    seq![(t, tone)]
}

/// The bullet line `"  • <label>: <text>"` with the text in `tone`.
pub open spec fn bullet(label: Seq<char>, value: Seq<char>, tone: Tone) -> Seq<(Seq<char>, Tone)> {
    seq![("  • "@, Tone::Accent), (label + ": "@, Tone::Dim), (value, tone)]
}

/// The preview lines of one field.
pub open spec fn field_lines(f: FieldView, form: FormView) -> Seq<Seq<(Seq<char>, Tone)>> {
    let v = form.value_at(f.key);
    if f.field_type == FieldType::SectionBreak || f.field_type == FieldType::ActionButton || f.hidden
        || v.empty() {
        Seq::empty()
    } else {
        match f.field_type {
            FieldType::Checkbox => if v.flag() {
                seq![seq![("  ✓ "@, Tone::Success), (f.label, Tone::Text)]]
            } else {
                Seq::empty()
            },
            FieldType::Select => seq![bullet(f.label, v.text(), Tone::Text)],
            FieldType::Multiselect => if v.items().len() != 0 {
                seq![bullet(f.label, text::join(v.items(), ", "@), Tone::Text)]
            } else {
                Seq::empty()
            },
            FieldType::ListBuilder => if v.items().len() != 0 {
                seq![one("  "@ + f.label + ":"@, Tone::Dim)] + v.items().map_values(
                    |item: Seq<char>| seq![("    • "@, Tone::Accent), (item, Tone::Text)],
                )
            } else {
                Seq::empty()
            },
            FieldType::Textarea => seq![one("  "@ + f.label + ":"@, Tone::Dim)] + lines_from(v.text(), 0).map_values(
                |line: Seq<char>| seq![("    "@, Tone::Dim), (line, Tone::Text)],
            ),
            FieldType::CrateInput => if v.text().len() != 0 {
                seq![bullet(f.label, v.text(), Tone::Success)]
            } else {
                Seq::empty()
            },
            _ => if v.text().len() != 0 {
                seq![bullet(f.label, v.text(), Tone::Text)]
            } else {
                Seq::empty()
            },
        }
    }
}

/// The preview lines of `fields`, in order.
pub open spec fn fields_lines(fields: Seq<FieldView>, form: FormView) -> Seq<Seq<(Seq<char>, Tone)>>
    decreases fields.len(),
{
    if fields.len() == 0 {
        Seq::empty()
    } else {
        fields_lines(fields.drop_last(), form) + field_lines(fields.last(), form)
    }
}

/// The fifty-cell rule under a section heading.
pub open spec fn rule() -> Seq<char> {
    Seq::new(50, |i: int| '─')
}

/// The preview lines of a section: heading, rule, fields, a blank line.
pub open spec fn section_lines(s: SectionView, form: FormView) -> Seq<Seq<(Seq<char>, Tone)>> {
    seq![one(s.icon + " "@ + s.title, Tone::Warning), one(rule(), Tone::Border)] + fields_lines(s.fields, form)
        + seq![Seq::empty()]
}

/// The preview lines of `sections`, in order.
pub open spec fn sections_lines(sections: Seq<SectionView>, form: FormView) -> Seq<Seq<(Seq<char>, Tone)>>
    decreases sections.len(),
{
    if sections.len() == 0 {
        Seq::empty()
    } else {
        sections_lines(sections.drop_last(), form) + section_lines(sections.last(), form)
    }
}

/// The whole preview of blueprint `bp` filled in as `form`.
pub open spec fn preview_of(bp: BlueprintView, form: FormView) -> Seq<Seq<(Seq<char>, Tone)>> {
    seq![one(bp.icon + " "@ + bp.name, Tone::Accent), Seq::empty()] + sections_lines(bp.sections, form)
}

fn piece(t: String, tone: Tone) -> (r: Line)
    ensures
        line_view(r) == one(t@, tone),
{
    let mut l: Line = Vec::new();
    l.push((t, tone));
    assert(line_view(l) =~= one(t@, tone));
    l
}

fn bullet_line(label: &str, value: &str, tone: Tone) -> (r: Line)
    ensures
        line_view(r) == bullet(label@, value@, tone),
{
    let mut l: Line = Vec::new();
    l.push((text::owned("  • "), Tone::Accent));
    l.push((text::concat(label, ": "), Tone::Dim));
    l.push((text::owned(value), tone));
    assert(line_view(l) =~= bullet(label@, value@, tone));
    l
}

fn push_line(out: &mut Vec<Line>, l: Line)
    ensures
        lines_view(final(out)@) == lines_view(old(out)@).push(line_view(l)),
{
    out.push(l);
    assert(lines_view(out@) =~= lines_view(old(out)@).push(line_view(l)));
}

fn push_field_lines(out: &mut Vec<Line>, f: &Field, form: &Form)
    ensures
        lines_view(final(out)@) == lines_view(old(out)@) + field_lines(f@, form@),
{
    if f.field_type == FieldType::SectionBreak || f.field_type == FieldType::ActionButton || f.hidden {
        assert(lines_view(out@) =~= lines_view(out@) + field_lines(f@, form@));
        return;
    }
    let value = form.value_at(&f.key);
    if value.is_empty() {
        assert(lines_view(out@) =~= lines_view(out@) + field_lines(f@, form@));
        return;
    }
    let ghost start = lines_view(out@);
    match f.field_type {
        FieldType::Checkbox => {
            if value.as_bool() {
                let mut l: Line = Vec::new();
                l.push((text::owned("  ✓ "), Tone::Success));
                l.push((f.label.clone(), Tone::Text));
                assert(line_view(l) =~= seq![("  ✓ "@, Tone::Success), (f@.label, Tone::Text)]);
                push_line(out, l);
            }
        },
        FieldType::Select => {
            push_line(out, bullet_line(f.label.as_str(), value.as_str(), Tone::Text));
        },
        FieldType::Multiselect => {
            let values = value.as_vec();
            if values.len() != 0 {
                let joined = text::join_strings(&values, ", ");
                push_line(out, bullet_line(f.label.as_str(), joined.as_str(), Tone::Text));
            }
        },
        FieldType::ListBuilder => {
            let items = value.as_vec();
            if items.len() != 0 {
                push_line(out, piece(text::concat3("  ", f.label.as_str(), ":"), Tone::Dim));
                let ghost head = lines_view(out@);
                let ghost iv = text::views(items@);
                let mut i: usize = 0;
                while i < items.len()
                    invariant
                        i <= items@.len(),
                        iv == text::views(items@),
                        lines_view(out@) == head + iv.subrange(0, i as int).map_values(
                            |item: Seq<char>| seq![("    • "@, Tone::Accent), (item, Tone::Text)],
                        ),
                    decreases items.len() - i,
                {
                    let mut l: Line = Vec::new();
                    l.push((text::owned("    • "), Tone::Accent));
                    l.push((items[i].clone(), Tone::Text));
                    assert(line_view(l) =~= seq![("    • "@, Tone::Accent), (iv[i as int], Tone::Text)]);
                    push_line(out, l);
                    assert(iv.subrange(0, i + 1).map_values(
                        |item: Seq<char>| seq![("    • "@, Tone::Accent), (item, Tone::Text)],
                    ) =~= iv.subrange(0, i as int).map_values(
                        |item: Seq<char>| seq![("    • "@, Tone::Accent), (item, Tone::Text)],
                    ).push(line_view(l)));
                    i = i + 1;
                }
                assert(iv.subrange(0, iv.len() as int) =~= iv);
            }
        },
        FieldType::Textarea => {
            push_line(out, piece(text::concat3("  ", f.label.as_str(), ":"), Tone::Dim));
            let ghost head = lines_view(out@);
            let lines = split_lines(value.as_str());
            let ghost lv = text::views(lines@);
            let mut i: usize = 0;
            while i < lines.len()
                invariant
                    i <= lines@.len(),
                    lv == text::views(lines@),
                    lines_view(out@) == head + lv.subrange(0, i as int).map_values(
                        |line: Seq<char>| seq![("    "@, Tone::Dim), (line, Tone::Text)],
                    ),
                decreases lines.len() - i,
            {
                let mut l: Line = Vec::new();
                l.push((text::owned("    "), Tone::Dim));
                l.push((lines[i].clone(), Tone::Text));
                assert(line_view(l) =~= seq![("    "@, Tone::Dim), (lv[i as int], Tone::Text)]);
                push_line(out, l);
                assert(lv.subrange(0, i + 1).map_values(
                    |line: Seq<char>| seq![("    "@, Tone::Dim), (line, Tone::Text)],
                ) =~= lv.subrange(0, i as int).map_values(
                    |line: Seq<char>| seq![("    "@, Tone::Dim), (line, Tone::Text)],
                ).push(line_view(l)));
                i = i + 1;
            }
            assert(lv.subrange(0, lv.len() as int) =~= lv);
        },
        FieldType::CrateInput => {
            let t = value.as_str();
            if !t.is_empty() {
                push_line(out, bullet_line(f.label.as_str(), t, Tone::Success));
            }
        },
        _ => {
            let t = value.as_str();
            if !t.is_empty() {
                push_line(out, bullet_line(f.label.as_str(), t, Tone::Text));
            }
        },
    }
    assert(lines_view(out@) =~= start + field_lines(f@, form@));
}

fn push_section_lines(out: &mut Vec<Line>, s: &Section, form: &Form)
    ensures
        lines_view(final(out)@) == lines_view(old(out)@) + section_lines(s@, form@),
{
    let ghost start = lines_view(out@);
    push_line(out, piece(text::concat3(s.icon.as_str(), " ", s.title.as_str()), Tone::Warning));
    let mut bar = String::new();
    let mut k: usize = 0;
    while k < 50
        invariant
            k <= 50,
            bar@ =~= Seq::new(k as nat, |i: int| '─'),
        decreases 50 - k,
    {
        text::push_char(&mut bar, '─');
        k = k + 1;
    }
    push_line(out, piece(bar, Tone::Border));
    let ghost head = lines_view(out@);
    let fields = &s.fields;
    let ghost fv = s@.fields;
    let mut i: usize = 0;
    while i < fields.len()
        invariant
            fv == fields@.map_values(|f: Field| f@),
            i <= fields@.len(),
            lines_view(out@) == head + fields_lines(fv.subrange(0, i as int), form@),
        decreases fields.len() - i,
    {
        assert(fv.subrange(0, i + 1).drop_last() =~= fv.subrange(0, i as int));
        assert(fv.subrange(0, i + 1).last() == fields@[i as int]@);
        push_field_lines(out, &fields[i], form);
        i = i + 1;
    }
    assert(fv.subrange(0, fv.len() as int) =~= fv);
    let blank: Line = Vec::new();
    assert(line_view(blank) =~= Seq::<(Seq<char>, Tone)>::empty());
    push_line(out, blank);
    assert(lines_view(out@) =~= start + section_lines(s@, form@));
}

/// The preview of `blueprint` filled in as `form`.
pub fn preview_lines(blueprint: &Blueprint, form: &Form) -> (r: Vec<Line>)
    ensures
        lines_view(r@) == preview_of(blueprint@, form@),
{
    let mut out: Vec<Line> = Vec::new();
    push_line(&mut out, piece(text::concat3(blueprint.icon.as_str(), " ", blueprint.name.as_str()), Tone::Accent));
    let blank: Line = Vec::new();
    assert(line_view(blank) =~= Seq::<(Seq<char>, Tone)>::empty());
    push_line(&mut out, blank);
    let ghost head = lines_view(out@);
    let sections = &blueprint.sections;
    let ghost sv = blueprint@.sections;
    let mut i: usize = 0;
    while i < sections.len()
        invariant
            sv == sections@.map_values(|s: Section| s@),
            i <= sections@.len(),
            lines_view(out@) == head + sections_lines(sv.subrange(0, i as int), form@),
        decreases sections.len() - i,
    {
        assert(sv.subrange(0, i + 1).drop_last() =~= sv.subrange(0, i as int));
        assert(sv.subrange(0, i + 1).last() == sections@[i as int]@);
        push_section_lines(&mut out, &sections[i], form);
        i = i + 1;
    }
    assert(sv.subrange(0, sv.len() as int) =~= sv);
    assert(lines_view(out@) =~= preview_of(blueprint@, form@));
    out
}

} // verus!
