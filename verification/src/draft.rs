//! Drafts: saved form states, and the naming and time-stamp rules of the
//! drafts directory. Reading and writing the files is left to the caller.
use vstd::prelude::*;
use crate::blueprint::FieldVal;
use crate::keyed::ValueMap;
use crate::text;

verus! {

/// A saved form state.
#[derive(Debug)]
pub struct Draft {
    pub name: String,
    pub blueprint_name: String,
    pub created_at: String,
    pub updated_at: String,
    pub values: ValueMap,
    pub current_section: usize,
    pub selected_field: usize,
}

/// The model of a `Draft`.
pub struct DraftView {
    pub name: Seq<char>,
    pub blueprint_name: Seq<char>,
    pub created_at: Seq<char>,
    pub updated_at: Seq<char>,
    pub values: Map<Seq<char>, FieldVal>,
    pub current_section: usize,
    pub selected_field: usize,
}

impl View for Draft {
    type V = DraftView;

    open spec fn view(&self) -> DraftView {
        DraftView {
            name: self.name@,
            blueprint_name: self.blueprint_name@,
            created_at: self.created_at@,
            updated_at: self.updated_at@,
            values: self.values@,
            current_section: self.current_section,
            selected_field: self.selected_field,
        }
    }
}

impl Draft {
    /// A draft created and updated at `now`.
    pub fn new_at(
        name: String,
        blueprint_name: String,
        values: ValueMap,
        current_section: usize,
        selected_field: usize,
        now: String,
    ) -> (r: Draft)
        ensures
            r@ == (DraftView {
                name: name@,
                blueprint_name: blueprint_name@,
                created_at: now@,
                updated_at: now@,
                values: values@,
                current_section,
                selected_field,
            }),
    {
        Draft {
            name,
            blueprint_name,
            created_at: now.clone(),
            updated_at: now,
            values,
            current_section,
            selected_field,
        }
    }

    /// A draft created and updated now (the time as `"%Y-%m-%d %H:%M:%S"`);
    /// `None` when the system clock cannot be read.
    pub fn new(
        name: String,
        blueprint_name: String,
        values: ValueMap,
        current_section: usize,
        selected_field: usize,
    ) -> (r: Option<Draft>)
        ensures
            r matches Some(d) ==> {
                &&& crate::clock::is_timestamp(d@.created_at)
                &&& d@ == (DraftView {
                    name: name@,
                    blueprint_name: blueprint_name@,
                    created_at: d@.created_at,
                    updated_at: d@.created_at,
                    values: values@,
                    current_section,
                    selected_field,
                })
            },
    {
        match crate::clock::utc_timestamp() {
            Some(now) => Some(Draft::new_at(name, blueprint_name, values, current_section, selected_field, now)),
            None => None,
        }
    }

    /// Marks the draft as updated at `now`.
    pub fn update_timestamp_at(&mut self, now: String)
        ensures
            final(self)@ == (DraftView { updated_at: now@, ..old(self)@ }),
    {
        self.updated_at = now;
    }

    /// Marks the draft as updated now: `updated_at` becomes the current time,
    /// written as `"%Y-%m-%d %H:%M:%S"`, and `true` is returned; nothing else
    /// changes. When the system clock cannot be read, nothing changes and
    /// `false` is returned.
    pub fn update_timestamp(&mut self) -> (r: bool)
        ensures
            r ==> final(self)@ == (DraftView { updated_at: final(self)@.updated_at, ..old(self)@ }),
            r ==> crate::clock::is_timestamp(final(self)@.updated_at),
            !r ==> final(self)@ == old(self)@,
    {
        match crate::clock::utc_timestamp() {
            Some(now) => {
                self.update_timestamp_at(now);
                true
            },
            None => false,
        }
    }

    /// An exact copy of the draft.
    pub fn duplicate(&self) -> (r: Draft)
        ensures
            r@ == self@,
    {
        Draft {
            name: self.name.clone(),
            blueprint_name: self.blueprint_name.clone(),
            created_at: self.created_at.clone(),
            updated_at: self.updated_at.clone(),
            values: self.values.duplicate(),
            current_section: self.current_section,
            selected_field: self.selected_field,
        }
    }
}

/// The draft written when saving `draft` at `now` over `existing` (the draft
/// already on disk under that name, if any could be read): it keeps the
/// creation time of the existing draft and is updated at `now`.
pub open spec fn saved_view(draft: DraftView, existing: Option<DraftView>, now: Seq<char>) -> DraftView {
    DraftView {
        created_at: match existing {
            Some(e) => e.created_at,
            None => draft.created_at,
        },
        updated_at: now,
        ..draft
    }
}

/// The model of an optional draft.
pub open spec fn existing_view(existing: Option<&Draft>) -> Option<DraftView> {
    match existing {
        Some(e) => Some(e@),
        None => None,
    }
}

/// The draft to write when saving `draft` at `now` over `existing`.
pub fn prepare_saved_draft_at(draft: &Draft, existing: Option<&Draft>, now: String) -> (r: Draft)
    ensures
        r@ == saved_view(draft@, existing_view(existing), now@),
{
    let mut d = draft.duplicate();
    if let Some(e) = existing {
        d.created_at = e.created_at.clone();
    }
    d.update_timestamp_at(now);
    d
}

/// The draft to write when saving `draft` now over `existing` (the time as
/// `"%Y-%m-%d %H:%M:%S"`); `None` when the system clock cannot be read.
pub fn prepare_saved_draft(draft: &Draft, existing: Option<&Draft>) -> (r: Option<Draft>)
    ensures
        r matches Some(d) ==> exists|now: Seq<char>|
            crate::clock::is_timestamp(now) && d@ == saved_view(draft@, existing_view(existing), now),
{
    match crate::clock::utc_timestamp() {
        Some(now) => Some(prepare_saved_draft_at(draft, existing, now)),
        None => None,
    }
}

/// Where drafts are kept.
pub struct DraftManager {
    drafts_dir: String,
}

impl DraftManager {
    /// A manager of the drafts in `drafts_dir` (found and created by the caller).
    pub fn new(drafts_dir: String) -> (r: DraftManager)
        ensures
            r.dir() == drafts_dir@,
    {
        DraftManager { drafts_dir }
    }

    /// The drafts directory.
    pub closed spec fn dir(&self) -> Seq<char> {
        self.drafts_dir@
    }

    /// The drafts directory.
    pub fn drafts_dir(&self) -> (r: &str)
        ensures
            r@ == self.dir(),
    {
        self.drafts_dir.as_str()
    }

    /// The file name under which the draft `filename` is stored.
    pub fn draft_file_name(filename: &str) -> (r: String)
        ensures
            r@ == filename@ + ".json"@,
    {
        text::concat(filename, ".json")
    }
}

/// The name under which a new draft of blueprint `blueprint_name` is saved:
/// the lowercase name with spaces made underscores, then `_draft`.
pub open spec fn default_draft_name(blueprint_name: Seq<char>) -> Seq<char> {
    text::spaces_to_underscores(text::lowercase(blueprint_name)) + "_draft"@
}

/// The name under which a new draft of `blueprint_name` is saved.
pub fn draft_name_for(blueprint_name: &str) -> (r: String)
    ensures
        r@ == default_draft_name(blueprint_name@),
{
    let lower = text::to_lowercase(blueprint_name);
    let mut r = text::replace_spaces(lower.as_str());
    r.append("_draft");
    r
}

} // verus!
