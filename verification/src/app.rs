//! The state of the whole program: which screen is shown, the blueprints and
//! drafts on offer, the form being filled in, and the messages shown.
//! Loading and saving files is left to the caller, which hands the results in.
use vstd::prelude::*;
use crate::blueprint::{Blueprint, BlueprintView, opt_view};
use crate::draft::{Draft, DraftManager, DraftView, default_draft_name, draft_name_for};
use crate::form::{Form, FormView, new_form_view};
use crate::text;

verus! {

/// The screens of the program.
#[derive(Debug, Clone, Copy, PartialEq, Eq, Structural)]
pub enum Screen {
    Menu,
    Drafts,
    Form,
    Review,
    Success,
}

/// Which list of the start screen has the keyboard.
#[derive(Debug, Clone, Copy, PartialEq, Eq, Structural)]
pub enum PanelFocus {
    Blueprints,
    Drafts,
}

/// The program state.
pub struct App {
    pub current_screen: Screen,
    pub blueprints: Vec<Blueprint>,
    pub selected_blueprint: usize,
    pub current_blueprint: Option<Blueprint>,
    pub form: Form,
    pub should_quit: bool,
    pub generate_prompt: bool,
    pub copy_to_clipboard: bool,
    pub status_message: Option<String>,
    pub blueprints_dir: String,
    pub is_loading: bool,
    pub loading_message: String,
    pub preview_scroll: u16,
    pub last_output_path: Option<String>,
    pub last_copy_result: Option<String>,
    pub last_error: Option<String>,
    pub draft_manager: DraftManager,
    pub drafts: Vec<(String, Draft)>,
    pub selected_draft: usize,
    pub current_draft_name: Option<String>,
    pub navbar_scroll_offset: usize,
    pub error_title: Option<String>,
    pub error_message: Option<String>,
    pub error_details: Option<String>,
    pub search_target_key: Option<String>,
    pub search_add_to_list: bool,
    pub panel_focus: PanelFocus,
    /// Whether the question to save before leaving is open (only
    /// `request_exit` opens it).
    pub show_exit_confirm: bool,
    pub exit_confirm_selection: usize,
}

/// The model of an `App`.
pub struct AppView {
    pub current_screen: Screen,
    pub blueprints: Seq<BlueprintView>,
    pub selected_blueprint: usize,
    pub current_blueprint: Option<BlueprintView>,
    pub form: FormView,
    pub should_quit: bool,
    pub generate_prompt: bool,
    pub copy_to_clipboard: bool,
    pub status_message: Option<Seq<char>>,
    pub blueprints_dir: Seq<char>,
    pub is_loading: bool,
    pub loading_message: Seq<char>,
    pub preview_scroll: u16,
    pub last_output_path: Option<Seq<char>>,
    pub last_copy_result: Option<Seq<char>>,
    pub last_error: Option<Seq<char>>,
    pub drafts_dir: Seq<char>,
    pub drafts: Seq<(Seq<char>, DraftView)>,
    pub selected_draft: usize,
    pub current_draft_name: Option<Seq<char>>,
    pub navbar_scroll_offset: usize,
    pub error_title: Option<Seq<char>>,
    pub error_message: Option<Seq<char>>,
    pub error_details: Option<Seq<char>>,
    pub search_target_key: Option<Seq<char>>,
    pub search_add_to_list: bool,
    pub panel_focus: PanelFocus,
    pub show_exit_confirm: bool,
    pub exit_confirm_selection: usize,
}

/// The model of an optional blueprint.
pub open spec fn opt_blueprint(o: Option<Blueprint>) -> Option<BlueprintView> {
    match o {
        Some(b) => Some(b@),
        None => None,
    }
}

/// The models of a list of blueprints.
pub open spec fn blueprint_views(v: Seq<Blueprint>) -> Seq<BlueprintView> {
    v.map_values(|b: Blueprint| b@)
}

/// The models of a list of named drafts.
pub open spec fn draft_views(v: Seq<(String, Draft)>) -> Seq<(Seq<char>, DraftView)> {
    v.map_values(|p: (String, Draft)| (p.0@, p.1@))
}

impl View for App {
    type V = AppView;

    open spec fn view(&self) -> AppView {
        AppView {
            current_screen: self.current_screen,
            blueprints: blueprint_views(self.blueprints@),
            selected_blueprint: self.selected_blueprint,
            current_blueprint: opt_blueprint(self.current_blueprint),
            form: self.form@,
            should_quit: self.should_quit,
            generate_prompt: self.generate_prompt,
            copy_to_clipboard: self.copy_to_clipboard,
            status_message: opt_view(self.status_message),
            blueprints_dir: self.blueprints_dir@,
            is_loading: self.is_loading,
            loading_message: self.loading_message@,
            preview_scroll: self.preview_scroll,
            last_output_path: opt_view(self.last_output_path),
            last_copy_result: opt_view(self.last_copy_result),
            last_error: opt_view(self.last_error),
            drafts_dir: self.draft_manager.dir(),
            drafts: draft_views(self.drafts@),
            selected_draft: self.selected_draft,
            current_draft_name: opt_view(self.current_draft_name),
            navbar_scroll_offset: self.navbar_scroll_offset,
            error_title: opt_view(self.error_title),
            error_message: opt_view(self.error_message),
            error_details: opt_view(self.error_details),
            search_target_key: opt_view(self.search_target_key),
            search_add_to_list: self.search_add_to_list,
            panel_focus: self.panel_focus,
            show_exit_confirm: self.show_exit_confirm,
            exit_confirm_selection: self.exit_confirm_selection,
        }
    }
}

/// The position of the first blueprint named `name`.
pub open spec fn first_named(bps: Seq<BlueprintView>, name: Seq<char>) -> Option<int>
    decreases bps.len(),
{
    if bps.len() == 0 {
        None
    } else {
        match first_named(bps.drop_last(), name) {
            Some(i) => Some(i),
            None => if bps.last().name == name {
                Some(bps.len() - 1)
            } else {
                None
            },
        }
    }
}

/// The status line shown at start: how many blueprints and drafts were found,
/// or where no blueprint was found.
pub open spec fn startup_status(blueprints_dir: Seq<char>, cwd: Seq<char>, n_blueprints: nat, n_drafts: nat) -> Seq<char> {
    if n_blueprints == 0 {
        "No blueprints found in '"@ + blueprints_dir + "' (cwd: '"@ + cwd + "')"@
    } else {
        "Loaded "@ + text::decimal(n_blueprints) + " blueprint(s), "@ + text::decimal(n_drafts)
            + " draft(s)"@
    }
}

impl AppView {
    /// The next blueprint of the menu (wrapping).
    pub open spec fn menu_next(self) -> AppView {
        if self.blueprints.len() > 0 {
            AppView { selected_blueprint: ((self.selected_blueprint + 1) % (self.blueprints.len() as int)) as usize, ..self }
        } else {
            self
        }
    }

    /// The previous blueprint of the menu (wrapping).
    pub open spec fn menu_prev(self) -> AppView {
        if self.blueprints.len() > 0 {
            AppView {
                selected_blueprint: (if self.selected_blueprint == 0 {
                    self.blueprints.len() - 1
                } else {
                    self.selected_blueprint - 1
                }) as usize,
                ..self
            }
        } else {
            self
        }
    }

    /// The next draft of the list (wrapping).
    pub open spec fn drafts_next(self) -> AppView {
        if self.drafts.len() > 0 {
            AppView { selected_draft: ((self.selected_draft + 1) % (self.drafts.len() as int)) as usize, ..self }
        } else {
            self
        }
    }

    /// The previous draft of the list (wrapping).
    pub open spec fn drafts_prev(self) -> AppView {
        if self.drafts.len() > 0 {
            AppView {
                selected_draft: (if self.selected_draft == 0 {
                    self.drafts.len() - 1
                } else {
                    self.selected_draft - 1
                }) as usize,
                ..self
            }
        } else {
            self
        }
    }

    /// The selected blueprint opened in a fresh form.
    pub open spec fn select_blueprint(self) -> AppView {
        if self.selected_blueprint < self.blueprints.len() {
            let bp = self.blueprints[self.selected_blueprint as int];
            AppView {
                current_blueprint: Some(bp),
                form: new_form_view(bp),
                current_screen: Screen::Form,
                current_draft_name: None,
                navbar_scroll_offset: 0,
                status_message: Some("Loaded: "@ + bp.name),
                ..self
            }
        } else {
            self
        }
    }

    /// The selected draft opened over a fresh form of its blueprint, or a
    /// warning when no blueprint of that name is loaded.
    pub open spec fn load_selected_draft(self) -> AppView {
        if self.selected_draft < self.drafts.len() {
            let (filename, d) = self.drafts[self.selected_draft as int];
            match first_named(self.blueprints, d.blueprint_name) {
                Some(i) => {
                    let bp = self.blueprints[i];
                    AppView {
                        current_blueprint: Some(bp),
                        form: FormView {
                            values: d.values,
                            current_section: d.current_section,
                            selected_field: d.selected_field,
                            ..new_form_view(bp)
                        },
                        current_draft_name: Some(filename),
                        current_screen: Screen::Form,
                        navbar_scroll_offset: 0,
                        status_message: Some("Loaded draft: "@ + d.name),
                        ..self
                    }
                },
                None => AppView {
                    status_message: Some("⚠ Blueprint '"@ + d.blueprint_name + "' not found for draft"@),
                    ..self
                },
            }
        } else {
            self
        }
    }

    /// The navbar scrolled so that the current section is among `visible` tabs.
    pub open spec fn ensure_navbar_visible(self, visible: int) -> AppView {
        let current = self.form.current_section as int;
        if visible == 0 {
            self
        } else if current < self.navbar_scroll_offset {
            AppView { navbar_scroll_offset: current as usize, ..self }
        } else if current >= self.navbar_scroll_offset + visible {
            AppView { navbar_scroll_offset: crate::form::sat_sub(current, visible - 1) as usize, ..self }
        } else {
            self
        }
    }

    /// An error shown with `title` and `message` (and no details).
    pub open spec fn show_error(self, title: Seq<char>, message: Seq<char>) -> AppView {
        AppView { error_title: Some(title), error_message: Some(message), error_details: None, ..self }
    }

    /// No error shown.
    pub open spec fn dismiss_error(self) -> AppView {
        AppView { error_title: None, error_message: None, error_details: None, ..self }
    }

    /// Whether an error is shown.
    pub open spec fn has_error(self) -> bool {
        self.error_message is Some
    }

    /// The name under which the current form is saved as a draft.
    pub open spec fn draft_name(self) -> Seq<char> {
        match self.current_draft_name {
            Some(n) => n,
            None => default_draft_name(self.current_blueprint->0.name),
        }
    }
}

impl App {
    /// The start state: the drafts screen over the loaded `blueprints` and
    /// `drafts`, an empty form, and a status line saying what was found.
    /// `cwd` is the working directory named when no blueprint was found.
    pub fn new(
        blueprints_dir: String,
        blueprints: Vec<Blueprint>,
        draft_manager: DraftManager,
        drafts: Vec<(String, Draft)>,
        cwd: &str,
    ) -> (r: App)
        ensures
            r@.current_screen == Screen::Drafts,
            r@.blueprints == blueprint_views(blueprints@),
            r@.drafts == draft_views(drafts@),
            r@.drafts_dir == draft_manager.dir(),
            r@.blueprints_dir == blueprints_dir@,
            r@.selected_blueprint == 0 && r@.selected_draft == 0,
            r@.current_blueprint is None,
            r@.current_draft_name is None,
            r@.form == new_form_view(Blueprint::empty_view()),
            r@.status_message == Some(
                startup_status(blueprints_dir@, cwd@, blueprints@.len(), drafts@.len()),
            ),
            !r@.should_quit && !r@.generate_prompt && !r@.copy_to_clipboard && !r@.is_loading,
            r@.loading_message.len() == 0,
            r@.preview_scroll == 0 && r@.navbar_scroll_offset == 0,
            r@.last_output_path is None && r@.last_copy_result is None && r@.last_error is None,
            !r@.has_error() && r@.error_title is None && r@.error_details is None,
            r@.search_target_key is None && !r@.search_add_to_list,
            r@.panel_focus == PanelFocus::Drafts,
            !r@.show_exit_confirm && r@.exit_confirm_selection == 0,
    {
        let status = if blueprints.len() == 0 {
            let mut s = text::concat3("No blueprints found in '", blueprints_dir.as_str(), "' (cwd: '");
            s.append(cwd);
            s.append("')");
            s
        } else {
            let mut s = text::owned("Loaded ");
            let n = text::decimal_string(blueprints.len());
            s.append(n.as_str());
            s.append(" blueprint(s), ");
            let m = text::decimal_string(drafts.len());
            s.append(m.as_str());
            s.append(" draft(s)");
            s
        };
        let empty = Blueprint::empty();
        let form = Form::new(&empty);
        App {
            current_screen: Screen::Drafts,
            blueprints,
            selected_blueprint: 0,
            current_blueprint: None,
            form,
            should_quit: false,
            generate_prompt: false,
            copy_to_clipboard: false,
            status_message: Some(status),
            blueprints_dir,
            is_loading: false,
            loading_message: String::new(),
            preview_scroll: 0,
            last_output_path: None,
            last_copy_result: None,
            last_error: None,
            draft_manager,
            drafts,
            selected_draft: 0,
            current_draft_name: None,
            navbar_scroll_offset: 0,
            error_title: None,
            error_message: None,
            error_details: None,
            search_target_key: None,
            search_add_to_list: false,
            panel_focus: PanelFocus::Drafts,
            show_exit_confirm: false,
            exit_confirm_selection: 0,
        }
    }

    /// Selects the next blueprint of the menu.
    pub fn menu_next(&mut self)
        requires
            old(self).selected_blueprint < usize::MAX,
        ensures
            final(self)@ == old(self)@.menu_next(),
            old(self)@.blueprints.len() <= usize::MAX,
    {
        if self.blueprints.len() > 0 {
            self.selected_blueprint = (self.selected_blueprint + 1) % self.blueprints.len();
        }
    }

    /// Selects the previous blueprint of the menu.
    pub fn menu_prev(&mut self)
        ensures
            final(self)@ == old(self)@.menu_prev(),
            old(self)@.blueprints.len() <= usize::MAX,
    {
        if self.blueprints.len() > 0 {
            self.selected_blueprint = if self.selected_blueprint == 0 {
                self.blueprints.len() - 1
            } else {
                self.selected_blueprint - 1
            };
        }
    }

    /// Opens the selected blueprint in a fresh form.
    pub fn select_blueprint(&mut self)
        ensures
            final(self)@ == old(self)@.select_blueprint(),
    {
        if self.selected_blueprint < self.blueprints.len() {
            let bp = &self.blueprints[self.selected_blueprint];
            let copy = bp.duplicate();
            let form = Form::new(bp);
            let status = text::concat("Loaded: ", bp.name.as_str());
            self.current_blueprint = Some(copy);
            self.form = form;
            self.current_screen = Screen::Form;
            self.current_draft_name = None;
            self.navbar_scroll_offset = 0;
            self.status_message = Some(status);
        }
    }

    /// Replaces the blueprints with a new listing of the blueprints directory.
    pub fn set_blueprints(&mut self, blueprints: Vec<Blueprint>)
        ensures
            final(self)@ == (AppView {
                blueprints: blueprint_views(blueprints@),
                selected_blueprint: 0,
                status_message: Some(
                    "Found "@ + text::decimal(blueprints@.len()) + " blueprint(s) in '"@
                        + old(self)@.blueprints_dir + "'"@,
                ),
                ..old(self)@
            }),
    {
        let mut s = text::owned("Found ");
        let n = text::decimal_string(blueprints.len());
        s.append(n.as_str());
        s.append(" blueprint(s) in '");
        s.append(self.blueprints_dir.as_str());
        s.append("'");
        self.blueprints = blueprints;
        self.selected_blueprint = 0;
        self.status_message = Some(s);
    }

    /// Replaces the drafts with a new listing of the drafts directory.
    pub fn set_drafts(&mut self, drafts: Vec<(String, Draft)>)
        ensures
            final(self)@ == (AppView { drafts: draft_views(drafts@), selected_draft: 0, ..old(self)@ }),
    {
        self.drafts = drafts;
        self.selected_draft = 0;
    }

    /// Selects the next draft.
    pub fn drafts_next(&mut self)
        requires
            old(self).selected_draft < usize::MAX,
        ensures
            final(self)@ == old(self)@.drafts_next(),
            old(self)@.drafts.len() <= usize::MAX,
    {
        if self.drafts.len() > 0 {
            self.selected_draft = (self.selected_draft + 1) % self.drafts.len();
        }
    }

    /// Selects the previous draft.
    pub fn drafts_prev(&mut self)
        ensures
            final(self)@ == old(self)@.drafts_prev(),
            old(self)@.drafts.len() <= usize::MAX,
    {
        if self.drafts.len() > 0 {
            self.selected_draft = if self.selected_draft == 0 {
                self.drafts.len() - 1
            } else {
                self.selected_draft - 1
            };
        }
    }

    /// Opens the selected draft over a fresh form of its blueprint.
    pub fn load_selected_draft(&mut self)
        ensures
            final(self)@ == old(self)@.load_selected_draft(),
    {
        if self.selected_draft < self.drafts.len() {
            let ghost bvs = blueprint_views(self.blueprints@);
            let mut found: Option<usize> = None;
            let mut i: usize = 0;
            while i < self.blueprints.len()
                invariant
                    self.selected_draft < self.drafts@.len(),
                    bvs == blueprint_views(self.blueprints@),
                    i <= self.blueprints@.len(),
                    match found {
                        Some(j) => j < i && first_named(bvs.subrange(0, i as int), self.drafts@[self.selected_draft as int].1@.blueprint_name) == Some(j as int),
                        None => first_named(bvs.subrange(0, i as int), self.drafts@[self.selected_draft as int].1@.blueprint_name) is None,
                    },
                decreases self.blueprints.len() - i,
            {
                assert(bvs.subrange(0, i + 1).drop_last() =~= bvs.subrange(0, i as int));
                if found.is_none() && self.blueprints[i].name == self.drafts[self.selected_draft].1.blueprint_name {
                    found = Some(i);
                }
                i = i + 1;
            }
            assert(bvs.subrange(0, bvs.len() as int) =~= bvs);
            let d = &self.drafts[self.selected_draft].1;
            match found {
                Some(j) => {
                    let bp = &self.blueprints[j];
                    let copy = bp.duplicate();
                    let mut form = Form::new(bp);
                    form.values = d.values.duplicate();
                    form.current_section = d.current_section;
                    form.selected_field = d.selected_field;
                    let filename = self.drafts[self.selected_draft].0.clone();
                    let status = text::concat("Loaded draft: ", d.name.as_str());
                    self.current_blueprint = Some(copy);
                    self.form = form;
                    self.current_draft_name = Some(filename);
                    self.current_screen = Screen::Form;
                    self.navbar_scroll_offset = 0;
                    self.status_message = Some(status);
                },
                None => {
                    let status = text::concat3("⚠ Blueprint '", d.blueprint_name.as_str(), "' not found for draft");
                    self.status_message = Some(status);
                },
            }
        }
    }

    /// The draft to save for the current form, stamped as created and
    /// updated at `now`, with the name to save it under (the open draft's,
    /// or one made from the blueprint name); none without an open blueprint.
    pub fn draft_to_save_at(&self, now: String) -> (r: Option<(String, Draft)>)
        ensures
            match r {
                Some((name, d)) => {
                    &&& self@.current_blueprint is Some
                    &&& name@ == self@.draft_name()
                    &&& d@.name == name@
                    &&& d@.blueprint_name == self@.current_blueprint->0.name
                    &&& d@.values == self@.form.values
                    &&& d@.current_section == self@.form.current_section
                    &&& d@.selected_field == self@.form.selected_field
                    &&& d@.created_at == now@
                    &&& d@.updated_at == now@
                },
                None => self@.current_blueprint is None,
            },
    {
        match &self.current_blueprint {
            Some(bp) => {
                let name = match &self.current_draft_name {
                    Some(n) => n.clone(),
                    None => draft_name_for(bp.name.as_str()),
                };
                let d = Draft::new_at(
                    name.clone(),
                    bp.name.clone(),
                    self.form.values.duplicate(),
                    self.form.current_section,
                    self.form.selected_field,
                    now,
                );
                Some((name, d))
            },
            None => None,
        }
    }

    /// The draft to save for the current form (see `draft_to_save_at`),
    /// stamped with the current time; none without an open blueprint or
    /// when the system clock cannot be read.
    pub fn draft_to_save(&self) -> (r: Option<(String, Draft)>)
        ensures
            self@.current_blueprint is None ==> r is None,
            r matches Some((name, d)) ==> {
                &&& self@.current_blueprint is Some
                &&& name@ == self@.draft_name()
                &&& d@.name == name@
                &&& d@.blueprint_name == self@.current_blueprint->0.name
                &&& d@.values == self@.form.values
                &&& d@.current_section == self@.form.current_section
                &&& d@.selected_field == self@.form.selected_field
                &&& d@.created_at == d@.updated_at
                &&& crate::clock::is_timestamp(d@.created_at)
            },
    {
        match crate::clock::utc_timestamp() {
            Some(now) => self.draft_to_save_at(now),
            None => None,
        }
    }

    /// Records that the current form was saved as draft `name`.
    pub fn draft_saved(&mut self, name: String)
        ensures
            final(self)@ == (AppView {
                current_draft_name: Some(name@),
                status_message: Some("✓ Draft saved: "@ + name@),
                ..old(self)@
            }),
    {
        let status = text::concat("✓ Draft saved: ", name.as_str());
        self.current_draft_name = Some(name);
        self.status_message = Some(status);
    }

    /// The file name of the selected draft, if one is selected.
    pub fn selected_draft_name(&self) -> (r: Option<String>)
        ensures
            opt_view(r) == if self@.selected_draft < self@.drafts.len() {
                Some(self@.drafts[self@.selected_draft as int].0)
            } else {
                None
            },
    {
        if self.selected_draft < self.drafts.len() {
            Some(self.drafts[self.selected_draft].0.clone())
        } else {
            None
        }
    }

    /// Records that the selected draft was deleted (after the listing was refreshed).
    pub fn draft_deleted(&mut self)
        ensures
            final(self)@ == (AppView { status_message: Some("Draft deleted"@), ..old(self)@ }),
    {
        self.status_message = Some(text::owned("Draft deleted"));
    }

    /// Scrolls the navbar one tab left.
    pub fn navbar_scroll_left(&mut self)
        ensures
            final(self)@ == (AppView {
                navbar_scroll_offset: crate::form::sat_sub(old(self)@.navbar_scroll_offset as int, 1) as usize,
                ..old(self)@
            }),
    {
        self.navbar_scroll_offset = self.navbar_scroll_offset.saturating_sub(1);
    }

    /// Scrolls the navbar one tab right, at most to the last section.
    pub fn navbar_scroll_right(&mut self)
        requires
            old(self).navbar_scroll_offset < usize::MAX,
        ensures
            final(self)@ == match old(self)@.current_blueprint {
                Some(bp) => {
                    let max_offset = crate::form::sat_sub(bp.sections.len() as int, 1);
                    let n = old(self)@.navbar_scroll_offset + 1;
                    AppView {
                        navbar_scroll_offset: (if n < max_offset {
                            n
                        } else {
                            max_offset
                        }) as usize,
                        ..old(self)@
                    }
                },
                None => old(self)@,
            },
    {
        if let Some(bp) = &self.current_blueprint {
            let max_offset = bp.sections.len().saturating_sub(1);
            let n = self.navbar_scroll_offset + 1;
            self.navbar_scroll_offset = if n < max_offset {
                n
            } else {
                max_offset
            };
        }
    }

    /// Scrolls the navbar so that the current section is among `visible_tab_count` tabs.
    pub fn ensure_navbar_visible(&mut self, visible_tab_count: usize)
        requires
            old(self).navbar_scroll_offset + visible_tab_count <= usize::MAX,
        ensures
            final(self)@ == old(self)@.ensure_navbar_visible(visible_tab_count as int),
    {
        if visible_tab_count == 0 {
            return;
        }
        let current = self.form.current_section;
        if current < self.navbar_scroll_offset {
            self.navbar_scroll_offset = current;
        } else if current >= self.navbar_scroll_offset + visible_tab_count {
            self.navbar_scroll_offset = current.saturating_sub(visible_tab_count - 1);
        }
    }

    /// Shows an error with `title` and `message`.
    pub fn show_error(&mut self, title: &str, message: &str)
        ensures
            final(self)@ == old(self)@.show_error(title@, message@),
    {
        self.error_title = Some(text::owned(title));
        self.error_message = Some(text::owned(message));
        self.error_details = None;
    }

    /// Hides the error.
    pub fn dismiss_error(&mut self)
        ensures
            final(self)@ == old(self)@.dismiss_error(),
    {
        self.error_title = None;
        self.error_message = None;
        self.error_details = None;
    }

    /// Whether an error is shown.
    pub fn has_error(&self) -> (r: bool)
        ensures
            r == self@.has_error(),
    {
        self.error_message.is_some()
    }
}

} // verus!
