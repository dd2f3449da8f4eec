//! The keys of the panel of skills, of the search for skills and of their
//! installation, and what follows once these have been carried out.

use vstd::prelude::*;
use vstd::string::*;

use crate::app::{at, in_mode, input_cleared, project_of, says, App};
use crate::board_state::{clamped, next_place, previous_place, step_down, step_up};
use crate::effects::Effect;
use crate::input_pickers::{input_edited, input_emptied};
use crate::input_tasks::status_is;
use crate::keys::{KeyCode, KeyModifiers};
use crate::settings::text_option;
use crate::skills::{
    chosen_packages, install_report, report_install, turned_mark, InstalledSkill, SearchResult,
    SkillScope, Skills,
};
use crate::text::{decimal, format_number, views};
use crate::text_input::{edited, TextInput};
use crate::views::{InputMode, ToastStyle};

verus! {

pub open spec fn with_skills(a: App, s: Skills) -> App {
    App { skills: s, ..a }
}

// ---------------------------------------------------------------------------
// The list
// ---------------------------------------------------------------------------

/// The description of the selected skill is read; without one it is emptied.
pub open spec fn detail_asked(pre: App, post: App, e: Effect) -> bool {
    match at(pre.skills.installed@, pre.skills.index as int) {
        Some(skill) => post == pre && e == (Effect::LoadSkillDetail { path: skill.path }),
        None => e == Effect::Nothing && post.skills.detail@.len() == 0 && post == with_skills(
            pre,
            Skills { detail: post.skills.detail, ..pre.skills },
        ),
    }
}

/// The skill that is selected in a new list: the same place, at most the last one; in
/// an empty list the place is kept.
pub open spec fn skill_place(i: usize, n: nat) -> usize {
    if n > 0 {
        clamped(i, n)
    } else {
        i
    }
}

pub open spec fn at_skill(a: App, i: usize) -> App {
    with_skills(a, Skills { index: i, ..a.skills })
}

/// The skills have been listed.
pub open spec fn skills_shown(
    pre: App,
    installed: Vec<InstalledSkill>,
    post: App,
    e: Effect,
) -> bool {
    detail_asked(
        with_skills(
            pre,
            Skills {
                installed: installed,
                index: skill_place(pre.skills.index, installed@.len()),
                ..pre.skills
            },
        ),
        post,
        e,
    )
}

/// The panel of skills is open.
pub open spec fn skill_panel_opened(a: App) -> App {
    in_mode(at_skill(a, 0), InputMode::SkillPanel)
}

/// Where a package is installed: the project for which it is meant.
pub open spec fn install_place(a: App) -> Option<String> {
    if a.skills.scope_global {
        None
    } else {
        match project_of(a) {
            Some(project) => Some(project.repo_path),
            None => None,
        }
    }
}

// ---------------------------------------------------------------------------
// The panel
// ---------------------------------------------------------------------------

/// The search is open and empty.
pub open spec fn search_opened(pre: App, post: App) -> bool {
    &&& post.skills.results@.len() == 0
    &&& post.skills.selected@.len() == 0
    &&& input_cleared(
        in_mode(
            with_skills(
                pre,
                Skills {
                    results: post.skills.results,
                    selected: post.skills.selected,
                    index: 0,
                    ..pre.skills
                },
            ),
            InputMode::SkillSearch,
        ),
        post,
    )
}

/// The selected skill is removed.
pub open spec fn removes_skill(a: App) -> Effect {
    match at(a.skills.installed@, a.skills.index as int) {
        Some(skill) => match skill.scope {
            SkillScope::Global => Effect::RemoveSkill {
                name: skill.name,
                global: true,
                project_path: None,
            },
            SkillScope::Project(path) => Effect::RemoveSkill {
                name: skill.name,
                global: false,
                project_path: Some(path),
            },
        },
        None => Effect::Nothing,
    }
}

/// A key of the panel.
pub open spec fn panel_step(pre: App, code: KeyCode, post: App, e: Effect) -> bool {
    match code {
        KeyCode::Esc => e == Effect::Nothing && post == in_mode(pre, InputMode::Normal),
        KeyCode::Char('j') | KeyCode::Down => if pre.skills.installed@.len() == 0 {
            e == Effect::Nothing && post == pre
        } else {
            detail_asked(
                at_skill(pre, next_place(pre.skills.index, pre.skills.installed@.len())),
                post,
                e,
            )
        },
        KeyCode::Char('k') | KeyCode::Up => detail_asked(
            at_skill(pre, previous_place(pre.skills.index)),
            post,
            e,
        ),
        KeyCode::Char('f') => e == Effect::Nothing && search_opened(pre, post),
        KeyCode::Char('a') => e == Effect::Nothing && input_cleared(
            in_mode(pre, InputMode::SkillAdd),
            post,
        ),
        KeyCode::Char('x') => post == pre && e == removes_skill(pre),
        KeyCode::Char('u') => e == (Effect::UpdateSkills { panel: true }) && says(
            pre,
            post,
            "Updating skills..."@,
            ToastStyle::Info,
        ),
        KeyCode::Char('g') => e == Effect::LoadSkills && post == with_skills(
            pre,
            Skills { scope_global: !pre.skills.scope_global, ..pre.skills },
        ),
        _ => e == Effect::Nothing && post == pre,
    }
}

impl App {
    fn refresh_skill_detail(&mut self) -> (e: Effect)
        requires
            old(self).wf(),
        ensures
            detail_asked(*old(self), *final(self), e),
            final(self).wf(),
    {
        if self.skills.index < self.skills.installed.len() {
            Effect::LoadSkillDetail { path: self.skills.installed[self.skills.index].path.clone() }
        } else {
            self.skills.detail = String::new();
            Effect::Nothing
        }
    }

    /// Show the skills: those of the user and those of the selected project.
    pub fn refresh_skills(&mut self, installed: Vec<InstalledSkill>) -> (e: Effect)
        requires
            old(self).wf(),
        ensures
            skills_shown(*old(self), installed, *final(self), e),
            final(self).wf(),
    {
        let n: usize = installed.len();
        self.skills.installed = installed;
        if n > 0 {
            self.skills.index = crate::board_state::clamp(self.skills.index, n);
        }
        self.refresh_skill_detail()
    }

    /// Show the description of the selected skill, where it could be read.
    pub fn skill_detail_read(&mut self, content: Option<String>)
        requires
            old(self).wf(),
        ensures
            final(self).skills.detail@ == match content {
                Some(text) => text@,
                None => "Could not read SKILL.md"@,
            },
            *final(self) == with_skills(
                *old(self),
                (Skills { detail: final(self).skills.detail, ..old(self).skills }),
            ),
            final(self).wf(),
    {
        self.skills.detail = match content {
            Some(text) => text,
            None => "Could not read SKILL.md".to_owned(),
        };
    }

    /// Open the panel of skills; they have been listed.
    pub fn open_skill_panel(&mut self)
        requires
            old(self).wf(),
        ensures
            *final(self) == skill_panel_opened(*old(self)),
            final(self).wf(),
    {
        self.skills.index = 0;
        self.nav.input_mode = InputMode::SkillPanel;
    }

    fn start_skill_search(&mut self)
        requires
            old(self).wf(),
        ensures
            search_opened(*old(self), *final(self)),
            final(self).wf(),
    {
        self.nav.input_mode = InputMode::SkillSearch;
        self.input.text = String::new();
        self.skills.results = Vec::new();
        self.skills.selected = Vec::new();
        self.skills.index = 0;
    }

    fn start_skill_add(&mut self)
        requires
            old(self).wf(),
        ensures
            input_cleared(in_mode(*old(self), InputMode::SkillAdd), *final(self)),
            final(self).wf(),
    {
        self.nav.input_mode = InputMode::SkillAdd;
        self.input.text = String::new();
    }

    fn turn_skill_scope(&mut self)
        requires
            old(self).wf(),
        ensures
            *final(self) == with_skills(
                *old(self),
                Skills { scope_global: !old(self).skills.scope_global, ..old(self).skills },
            ),
            final(self).wf(),
    {
        self.skills.scope_global = !self.skills.scope_global;
    }

    fn remove_selected_skill(&self) -> (e: Effect)
        ensures
            e == removes_skill(*self),
    {
        if self.skills.index >= self.skills.installed.len() {
            return Effect::Nothing;
        }
        let skill = &self.skills.installed[self.skills.index];
        match &skill.scope {
            SkillScope::Global => Effect::RemoveSkill {
                name: skill.name.clone(),
                global: true,
                project_path: None,
            },
            SkillScope::Project(path) => Effect::RemoveSkill {
                name: skill.name.clone(),
                global: false,
                project_path: Some(path.clone()),
            },
        }
    }

    fn step_skill(&mut self, down: bool) -> (e: Effect)
        requires
            old(self).wf(),
        ensures
            panel_step(
                *old(self),
                if down {
                    KeyCode::Down
                } else {
                    KeyCode::Up
                },
                *final(self),
                e,
            ),
            final(self).wf(),
    {
        if down {
            if self.skills.installed.len() == 0 {
                return Effect::Nothing;
            }
            self.skills.index = step_down(self.skills.index, self.skills.installed.len());
        } else {
            self.skills.index = step_up(self.skills.index);
        }
        self.refresh_skill_detail()
    }

    /// Handle a key of the panel of skills.
    pub fn handle_skill_panel_key(&mut self, code: KeyCode) -> (e: Effect)
        requires
            old(self).wf(),
        ensures
            panel_step(*old(self), code, *final(self), e),
            final(self).wf(),
    {
        match code {
            KeyCode::Esc => {
                self.enter_mode(InputMode::Normal);
                Effect::Nothing
            },
            KeyCode::Char('j') | KeyCode::Down => self.step_skill(true),
            KeyCode::Char('k') | KeyCode::Up => self.step_skill(false),
            KeyCode::Char('f') => {
                self.start_skill_search();
                Effect::Nothing
            },
            KeyCode::Char('a') => {
                self.start_skill_add();
                Effect::Nothing
            },
            KeyCode::Char('x') => self.remove_selected_skill(),
            KeyCode::Char('u') => {
                self.show_toast("Updating skills...".to_owned(), ToastStyle::Info);
                Effect::UpdateSkills { panel: true }
            },
            KeyCode::Char('g') => {
                self.turn_skill_scope();
                Effect::LoadSkills
            },
            _ => Effect::Nothing,
        }
    }
}

// ---------------------------------------------------------------------------
// Outcomes
// ---------------------------------------------------------------------------

/// A skill was removed, or could not be.
pub open spec fn removal_shown(
    pre: App,
    name: Seq<char>,
    error: Option<Seq<char>>,
    post: App,
    e: Effect,
) -> bool {
    match error {
        None => e == Effect::LoadSkills && says(
            pre,
            post,
            "Removed "@ + name,
            ToastStyle::Success,
        ),
        Some(t) => e == Effect::Nothing && says(
            pre,
            post,
            "Remove failed: "@ + t,
            ToastStyle::Error,
        ),
    }
}

/// The skills were updated, or could not be. The panel shows a toast, the palette a
/// line in the status.
pub open spec fn update_shown(
    pre: App,
    panel: bool,
    outcome: Result<String, String>,
    post: App,
    e: Effect,
) -> bool {
    match outcome {
        Ok(message) => e == Effect::LoadSkills && (if panel {
            says(pre, post, message@, ToastStyle::Success)
        } else {
            status_is(pre, post, message@)
        }),
        Err(t) => e == Effect::Nothing && (if panel {
            says(pre, post, "Update failed: "@ + t@, ToastStyle::Error)
        } else {
            status_is(pre, post, "Update failed: "@ + t@)
        }),
    }
}

/// The search is over.
pub open spec fn search_shown(
    pre: App,
    outcome: Result<Vec<SearchResult>, String>,
    post: App,
) -> bool {
    match outcome {
        Ok(results) => {
            &&& post.skills.status@ == "Found "@ + decimal(results@.len()) + " results"@
            &&& post.skills.selected@.len() == 0
            &&& post == with_skills(
                pre,
                Skills {
                    status: post.skills.status,
                    results: results,
                    index: 0,
                    selected: post.skills.selected,
                    ..pre.skills
                },
            )
        },
        Err(t) => status_is(pre, post, "Search failed: "@ + t@),
    }
}

/// The packages were installed, as far as that was possible.
pub open spec fn installation_shown(
    pre: App,
    installed: Seq<Seq<char>>,
    failed: Seq<Seq<char>>,
    post: App,
) -> bool {
    &&& post.skills.status@ == install_report(installed, failed)
    &&& post.skills.results@.len() == 0
    &&& post.skills.selected@.len() == 0
    &&& input_cleared(
        in_mode(
            with_skills(
                pre,
                Skills {
                    status: post.skills.status,
                    results: post.skills.results,
                    selected: post.skills.selected,
                    ..pre.skills
                },
            ),
            InputMode::SkillPanel,
        ),
        post,
    )
}

/// One package was installed, or could not be.
pub open spec fn addition_shown(
    pre: App,
    package: Seq<char>,
    error: Option<Seq<char>>,
    post: App,
    e: Effect,
) -> bool {
    match error {
        None => e == Effect::LoadSkills && exists|mid: App| #[trigger]
            status_is(pre, mid, "Installed "@ + package) && input_cleared(
                in_mode(mid, InputMode::SkillPanel),
                post,
            ),
        Some(t) => e == Effect::Nothing && status_is(pre, post, "Install failed: "@ + t),
    }
}

impl App {
    fn set_skill_status(&mut self, message: String)
        requires
            old(self).wf(),
        ensures
            status_is(*old(self), *final(self), message@),
            final(self).wf(),
    {
        self.skills.status = message;
    }

    /// Tell that a skill was removed, or why it could not be.
    pub fn skill_removed(&mut self, name: &str, error: &Option<String>) -> (e: Effect)
        requires
            old(self).wf(),
        ensures
            removal_shown(*old(self), name@, text_option(*error), *final(self), e),
            final(self).wf(),
    {
        match error {
            None => {
                self.show_toast("Removed ".to_owned().concat(name), ToastStyle::Success);
                Effect::LoadSkills
            },
            Some(t) => {
                let message = "Remove failed: ".to_owned().concat(t.as_str());
                self.show_toast(message, ToastStyle::Error);
                Effect::Nothing
            },
        }
    }

    /// Tell what came of the update of the skills.
    pub fn skills_updated(&mut self, panel: bool, outcome: Result<String, String>) -> (e: Effect)
        requires
            old(self).wf(),
        ensures
            update_shown(*old(self), panel, outcome, *final(self), e),
            final(self).wf(),
    {
        match outcome {
            Ok(message) => {
                if panel {
                    self.show_toast(message, ToastStyle::Success);
                } else {
                    self.set_skill_status(message);
                }
                Effect::LoadSkills
            },
            Err(t) => {
                let message = "Update failed: ".to_owned().concat(t.as_str());
                if panel {
                    self.show_toast(message, ToastStyle::Error);
                } else {
                    self.set_skill_status(message);
                }
                Effect::Nothing
            },
        }
    }

    /// Show what a search found.
    pub fn skills_found(&mut self, outcome: Result<Vec<SearchResult>, String>)
        requires
            old(self).wf(),
        ensures
            search_shown(*old(self), outcome, *final(self)),
            final(self).wf(),
    {
        match outcome {
            Ok(results) => {
                let mut message = "Found ".to_owned();
                message.append(format_number(results.len() as u64).as_str());
                message.append(" results");
                self.skills.status = message;
                self.skills.results = results;
                self.skills.index = 0;
                self.skills.selected = Vec::new();
            },
            Err(t) => {
                self.set_skill_status("Search failed: ".to_owned().concat(t.as_str()));
            },
        }
    }

    /// Report on the packages that were installed and those that failed.
    pub fn skills_installed(&mut self, installed: &Vec<String>, failed: &Vec<String>) -> (e: Effect)
        requires
            old(self).wf(),
        ensures
            e == Effect::LoadSkills,
            installation_shown(*old(self), views(installed@), views(failed@), *final(self)),
            final(self).wf(),
    {
        self.skills.status = report_install(installed, failed);
        self.nav.input_mode = InputMode::SkillPanel;
        self.input.text = String::new();
        self.skills.results = Vec::new();
        self.skills.selected = Vec::new();
        Effect::LoadSkills
    }

    /// Tell that a package was installed, or why it could not be.
    pub fn skill_installed(&mut self, package: &str, error: &Option<String>) -> (e: Effect)
        requires
            old(self).wf(),
        ensures
            addition_shown(*old(self), package@, text_option(*error), *final(self), e),
            final(self).wf(),
    {
        match error {
            None => {
                self.set_skill_status("Installed ".to_owned().concat(package));
                let ghost mid = *self;
                assert(status_is(*old(self), mid, "Installed "@ + package@));
                self.nav.input_mode = InputMode::SkillPanel;
                self.input.text = String::new();
                Effect::LoadSkills
            },
            Some(t) => {
                self.set_skill_status("Install failed: ".to_owned().concat(t.as_str()));
                Effect::Nothing
            },
        }
    }
}

// ---------------------------------------------------------------------------
// Search and installation
// ---------------------------------------------------------------------------

/// The search starts, or what it found is installed.
pub open spec fn search_entered(pre: App, post: App, e: Effect) -> bool {
    if pre.input.text@.len() == 0 {
        e == Effect::Nothing && post == pre
    } else if pre.skills.results@.len() == 0 {
        e == (Effect::SearchSkills { query: pre.input.text }) && status_is(
            pre,
            post,
            "Searching for '"@ + pre.input.text@ + "'..."@,
        )
    } else if chosen_packages(pre.skills).len() == 0 {
        e == Effect::Nothing && post == pre
    } else {
        post == pre && (e matches Effect::InstallSkills { packages, global, project_path } && views(
            packages@,
        ) == chosen_packages(pre.skills) && global == pre.skills.scope_global && project_path
            == install_place(pre))
    }
}

/// The search is left.
pub open spec fn search_left(pre: App, post: App) -> bool {
    &&& post.skills.results@.len() == 0
    &&& post.skills.selected@.len() == 0
    &&& post.skills.status@.len() == 0
    &&& input_cleared(
        in_mode(
            with_skills(
                pre,
                Skills {
                    results: post.skills.results,
                    selected: post.skills.selected,
                    status: post.skills.status,
                    ..pre.skills
                },
            ),
            InputMode::SkillPanel,
        ),
        post,
    )
}

/// The query was edited: what was found before is dropped.
pub open spec fn query_edited(pre: App, code: KeyCode, m: KeyModifiers, post: App) -> bool {
    match edited(pre.input@, code, m) {
        Some(line) => {
            &&& post.input@ == line
            &&& post.skills.results@.len() == 0
            &&& post.skills.selected@.len() == 0
            &&& post.skills.status@.len() == 0
            &&& post == (App {
                input: post.input,
                skills: Skills {
                    results: post.skills.results,
                    selected: post.skills.selected,
                    status: post.skills.status,
                    index: 0,
                    ..pre.skills
                },
                ..pre
            })
        },
        None => input_edited(pre, code, m, post),
    }
}

/// The mark of the result under the cursor is turned over; the cursor goes on.
pub open spec fn result_marked(pre: App, post: App) -> bool {
    &&& post.skills.selected@ == turned_mark(pre.skills.selected@, pre.skills.index)
    &&& post == with_skills(
        pre,
        Skills {
            selected: post.skills.selected,
            index: if pre.skills.index + 1 < pre.skills.results@.len() {
                (pre.skills.index + 1) as usize
            } else {
                pre.skills.index
            },
            ..pre.skills
        },
    )
}

/// A key of the search for skills.
pub open spec fn skill_search_step(
    pre: App,
    code: KeyCode,
    m: KeyModifiers,
    post: App,
    e: Effect,
) -> bool {
    let found = pre.skills.results@.len() > 0;
    if code == KeyCode::Enter {
        search_entered(pre, post, e)
    } else if code == KeyCode::Esc {
        e == Effect::Nothing && search_left(pre, post)
    } else if found && code == KeyCode::Char(' ') {
        e == Effect::Nothing && result_marked(pre, post)
    } else if found && (code == KeyCode::Char('j') || code == KeyCode::Down) {
        e == Effect::Nothing && post == at_skill(
            pre,
            next_place(pre.skills.index, pre.skills.results@.len()),
        )
    } else if found && (code == KeyCode::Char('k') || code == KeyCode::Up) {
        e == Effect::Nothing && post == at_skill(pre, previous_place(pre.skills.index))
    } else {
        e == Effect::Nothing && query_edited(pre, code, m, post)
    }
}

/// A key while the name of a package is typed.
pub open spec fn skill_add_step(
    pre: App,
    code: KeyCode,
    m: KeyModifiers,
    post: App,
    e: Effect,
) -> bool {
    match code {
        KeyCode::Enter => if pre.input.text@.len() == 0 {
            e == Effect::Nothing && post == pre
        } else {
            e == (Effect::InstallSkill {
                package: pre.input.text,
                global: pre.skills.scope_global,
                project_path: install_place(pre),
            }) && status_is(pre, post, "Installing "@ + pre.input.text@ + "..."@)
        },
        KeyCode::Esc => e == Effect::Nothing && input_emptied(
            in_mode(pre, InputMode::SkillPanel),
            post,
        ),
        _ => e == Effect::Nothing && input_edited(pre, code, m, post),
    }
}

impl App {
    fn install_path(&self) -> (r: Option<String>)
        ensures
            r == install_place(*self),
    {
        if self.skills.scope_global {
            None
        } else {
            match self.selected_project() {
                Some(project) => Some(project.repo_path.clone()),
                None => None,
            }
        }
    }

    fn enter_skill_search(&mut self) -> (e: Effect)
        requires
            old(self).wf(),
        ensures
            search_entered(*old(self), *final(self), e),
            final(self).wf(),
    {
        if self.input.text.as_str().is_empty() {
            return Effect::Nothing;
        }
        if self.skills.results.len() == 0 {
            let query = self.input.text.clone();
            let mut message = "Searching for '".to_owned();
            message.append(query.as_str());
            message.append("'...");
            self.set_skill_status(message);
            return Effect::SearchSkills { query };
        }
        let packages = self.skills.packages_to_install();
        assert(views(packages@).len() == packages@.len());
        if packages.len() == 0 {
            return Effect::Nothing;
        }
        Effect::InstallSkills {
            packages,
            global: self.skills.scope_global,
            project_path: self.install_path(),
        }
    }

    fn leave_skill_search(&mut self)
        requires
            old(self).wf(),
        ensures
            search_left(*old(self), *final(self)),
            final(self).wf(),
    {
        self.input.text = String::new();
        self.skills.results = Vec::new();
        self.skills.selected = Vec::new();
        self.skills.status = String::new();
        self.nav.input_mode = InputMode::SkillPanel;
    }

    fn edit_skill_query(&mut self, code: KeyCode, m: KeyModifiers)
        requires
            old(self).wf(),
        ensures
            query_edited(*old(self), code, m, *final(self)),
            final(self).wf(),
    {
        if self.input.apply_text_edit(code, m) {
            self.skills.results = Vec::new();
            self.skills.index = 0;
            self.skills.selected = Vec::new();
            self.skills.status = String::new();
        }
    }

    /// Handle a key of the search for skills.
    pub fn handle_skill_search_key(&mut self, code: KeyCode, m: KeyModifiers) -> (e: Effect)
        requires
            old(self).wf(),
        ensures
            skill_search_step(*old(self), code, m, *final(self), e),
            final(self).wf(),
    {
        let found = self.skills.results.len() > 0;
        if code == KeyCode::Enter {
            return self.enter_skill_search();
        }
        if code == KeyCode::Esc {
            self.leave_skill_search();
            return Effect::Nothing;
        }
        if found && code == KeyCode::Char(' ') {
            self.skills.toggle_result();
            return Effect::Nothing;
        }
        if found && (code == KeyCode::Char('j') || code == KeyCode::Down) {
            self.skills.index = step_down(self.skills.index, self.skills.results.len());
            return Effect::Nothing;
        }
        if found && (code == KeyCode::Char('k') || code == KeyCode::Up) {
            self.skills.index = step_up(self.skills.index);
            return Effect::Nothing;
        }
        self.edit_skill_query(code, m);
        Effect::Nothing
    }

    /// Handle a key while the name of a package is typed.
    pub fn handle_skill_add_key(&mut self, code: KeyCode, m: KeyModifiers) -> (e: Effect)
        requires
            old(self).wf(),
        ensures
            skill_add_step(*old(self), code, m, *final(self), e),
            final(self).wf(),
    {
        match code {
            KeyCode::Enter => {
                if self.input.text.as_str().is_empty() {
                    return Effect::Nothing;
                }
                let package = self.input.text.clone();
                let project_path = self.install_path();
                let mut message = "Installing ".to_owned();
                message.append(package.as_str());
                message.append("...");
                self.set_skill_status(message);
                Effect::InstallSkill {
                    package,
                    global: self.skills.scope_global,
                    project_path,
                }
            },
            KeyCode::Esc => {
                self.input = TextInput { text: String::new(), cursor: 0 };
                self.nav.input_mode = InputMode::SkillPanel;
                Effect::Nothing
            },
            _ => {
                self.input.apply_text_edit(code, m);
                Effect::Nothing
            },
        }
    }
}

/// Why a package could not be installed.
pub fn install_failure(package: &str, error: &str) -> (r: String)
    ensures
        r@ == package@ + ": "@ + error@,
{
    let mut r = package.to_owned();
    r.append(": ");
    r.append(error);
    r
}

/// What the keys of the panel do: the chosen skill is removed where it was installed, and
/// `g` turns between the user's skills and the project's.
pub proof fn law_panel_keys(pre: App, code: KeyCode, post: App, e: Effect)
    requires
        panel_step(pre, code, post, e),
    ensures
        code == KeyCode::Char('x') && pre.skills.index < pre.skills.installed@.len() ==> (
        e matches Effect::RemoveSkill { name, global, project_path } && name
            == pre.skills.installed@[pre.skills.index as int].name && (
        pre.skills.installed@[pre.skills.index as int].scope is Global ==> global && project_path
            is None) && (pre.skills.installed@[pre.skills.index as int].scope matches SkillScope::Project(
            p,
        ) ==> !global && project_path == Some(p))),
        code == KeyCode::Char('x') && pre.skills.index >= pre.skills.installed@.len() ==> e
            == Effect::Nothing,
        code == KeyCode::Char('g') ==> post.skills.scope_global == !pre.skills.scope_global && e
            == Effect::LoadSkills,
        code == KeyCode::Char('u') ==> e == (Effect::UpdateSkills { panel: true }),
        code == KeyCode::Char('f') ==> post.nav.input_mode == InputMode::SkillSearch
            && post.input.text@.len() == 0 && post.skills.selected@.len() == 0,
        code == KeyCode::Char('a') ==> post.nav.input_mode == InputMode::SkillAdd
            && post.input.text@.len() == 0,
        code == KeyCode::Esc ==> post.nav.input_mode == InputMode::Normal,
        (code == KeyCode::Down || code == KeyCode::Char('j')) && pre.skills.index + 1
            < pre.skills.installed@.len() ==> post.skills.index == pre.skills.index + 1 && e
            == (Effect::LoadSkillDetail {
            path: pre.skills.installed@[pre.skills.index + 1].path,
        }),
        (code == KeyCode::Up || code == KeyCode::Char('k')) && 0 < pre.skills.index
            <= pre.skills.installed@.len() ==> post.skills.index + 1 == pre.skills.index && e
            == (Effect::LoadSkillDetail {
            path: pre.skills.installed@[pre.skills.index - 1].path,
        }),
{
    assert(pre.skills.installed.len() == pre.skills.installed@.len());
}

/// Skills are installed for the user, or into the chosen project.
pub proof fn law_skills_are_installed_in_scope(a: App)
    ensures
        a.skills.scope_global ==> install_place(a) is None,
        !a.skills.scope_global && a.nav.project_index < a.projects@.len() ==> install_place(a)
            == Some(a.projects@[a.nav.project_index as int].repo_path),
{
}

/// Enter searches for what was typed, and installs what was found and chosen.
pub proof fn law_searches_then_installs(pre: App, post: App, e: Effect)
    requires
        search_entered(pre, post, e),
    ensures
        pre.input.text@.len() == 0 ==> e == Effect::Nothing && post == pre,
        pre.input.text@.len() > 0 && pre.skills.results@.len() == 0 ==> e
            == (Effect::SearchSkills { query: pre.input.text }),
        pre.input.text@.len() > 0 && pre.skills.index < pre.skills.results@.len()
            && pre.skills.selected@.len() == 0 ==> (e matches Effect::InstallSkills {
            packages,
            global,
            project_path,
        } && views(packages@) =~= seq![pre.skills.results@[pre.skills.index as int].package@]
            && global == pre.skills.scope_global),
{
}

/// What is typed by name is installed by that name, in the scope of the panel.
pub proof fn law_named_skills_are_installed(
    pre: App,
    code: KeyCode,
    m: KeyModifiers,
    post: App,
    e: Effect,
)
    requires
        skill_add_step(pre, code, m, post, e),
    ensures
        code == KeyCode::Enter && pre.input.text@.len() > 0 ==> (e matches Effect::InstallSkill {
            package,
            global,
            project_path,
        } && package == pre.input.text && global == pre.skills.scope_global && (
        pre.skills.scope_global ==> project_path is None)),
        code == KeyCode::Enter && pre.input.text@.len() == 0 ==> e == Effect::Nothing && post
            == pre,
        code == KeyCode::Esc ==> post.nav.input_mode == InputMode::SkillPanel && e
            == Effect::Nothing,
{
}

/// A changed query drops what was found; a blank marks a result and goes on to the next.
pub proof fn law_changed_queries_drop_results(
    pre: App,
    code: KeyCode,
    m: KeyModifiers,
    post: App,
    e: Effect,
)
    requires
        skill_search_step(pre, code, m, post, e),
    ensures
        pre.skills.results@.len() == 0 && code is Char && m.is_empty()
            ==> post.skills.results@.len() == 0 && post.input@.text() =~= pre.input@.before + seq![
            code->Char_0,
        ] + pre.input@.after,
        code == KeyCode::Backspace ==> post.skills.results@.len() == 0
            && post.skills.selected@.len() == 0,
        pre.skills.results@.len() > 0 && code == KeyCode::Char(' ') ==> (
        post.skills.selected@.contains(pre.skills.index) <==> !pre.skills.selected@.contains(
            pre.skills.index,
        )) && post.skills.results == pre.skills.results,
        pre.skills.results@.len() > 0 && (code == KeyCode::Down || code == KeyCode::Char('j'))
            && pre.skills.index + 1 < pre.skills.results@.len() ==> post.skills.index
            == pre.skills.index + 1,
        code == KeyCode::Esc ==> post.nav.input_mode == InputMode::SkillPanel
            && post.skills.results@.len() == 0,
{
    assert(pre.skills.results.len() == pre.skills.results@.len());
    crate::skills::law_marks_are_turned_one_by_one(
        pre.skills.selected@,
        pre.skills.index,
        pre.skills.index,
    );
}

/// What was found is counted and shown from its start; a failure keeps what was there.
pub proof fn law_found_skills_are_counted(
    pre: App,
    outcome: Result<Vec<SearchResult>, String>,
    post: App,
)
    requires
        search_shown(pre, outcome, post),
    ensures
        outcome matches Ok(results) ==> post.skills.results == results && post.skills.index == 0
            && post.skills.selected@.len() == 0 && post.skills.status@ == "Found "@ + decimal(
            results@.len(),
        ) + " results"@,
        outcome matches Err(t) ==> post.skills.results == pre.skills.results
            && post.skills.status@ == "Search failed: "@ + t@,
{
}

/// What became of a removal, an update and an addition is told.
pub proof fn law_skill_changes_are_told(
    pre: App,
    name: Seq<char>,
    error: Option<Seq<char>>,
    outcome: Result<String, String>,
    post: App,
    e: Effect,
)
    ensures
        removal_shown(pre, name, error, post, e) && error is None ==> e == Effect::LoadSkills && (
        post.toast matches Some(t) && t.style == ToastStyle::Success && t.message@ == "Removed "@
            + name),
        removal_shown(pre, name, error, post, e) && error is Some ==> e == Effect::Nothing && (
        post.toast matches Some(t) && t.style == ToastStyle::Error && t.message@
            == "Remove failed: "@ + error->0),
        update_shown(pre, true, outcome, post, e) ==> (outcome matches Ok(message) ==> e
            == Effect::LoadSkills && (post.toast matches Some(t) && t.message@ == message@)),
        update_shown(pre, true, outcome, post, e) && outcome is Err ==> e == Effect::Nothing && (
        post.toast matches Some(t) && t.style == ToastStyle::Error),
        update_shown(pre, false, outcome, post, e) ==> post.toast == pre.toast,
        addition_shown(pre, name, error, post, e) && error is None ==> e == Effect::LoadSkills
            && post.nav.input_mode == InputMode::SkillPanel && post.input.text@.len() == 0
            && post.skills.status@ == "Installed "@ + name,
        addition_shown(pre, name, error, post, e) && error is Some ==> e == Effect::Nothing
            && post.nav == pre.nav && post.skills.status@ == "Install failed: "@ + error->0,
{
}

/// After an installation the panel is shown again, with the report and without the results.
pub proof fn law_installations_lead_back(
    pre: App,
    installed: Seq<Seq<char>>,
    failed: Seq<Seq<char>>,
    post: App,
)
    requires
        installation_shown(pre, installed, failed, post),
    ensures
        post.nav.input_mode == InputMode::SkillPanel,
        post.skills.results@.len() == 0 && post.skills.selected@.len() == 0,
        post.skills.status@ == install_report(installed, failed),
        post.input.text@.len() == 0,
{
}

/// The panel opens at its first skill; what is listed keeps its mark inside, and the marked
/// skill is read.
pub proof fn law_listed_skills_are_read(
    pre: App,
    installed: Vec<InstalledSkill>,
    post: App,
    e: Effect,
)
    requires
        skills_shown(pre, installed, post, e),
    ensures
        skill_panel_opened(pre).nav.input_mode == InputMode::SkillPanel,
        skill_panel_opened(pre).skills.index == 0,
        pre.skills.index < installed@.len() ==> post.skills.index == pre.skills.index && e
            == (Effect::LoadSkillDetail { path: installed@[pre.skills.index as int].path }),
        installed@.len() > 0 && pre.skills.index >= installed@.len() ==> post.skills.index
            == installed@.len() - 1 && e == (Effect::LoadSkillDetail {
            path: installed@.last().path,
        }),
        installed@.len() == 0 ==> e == Effect::Nothing && post.skills.detail@.len() == 0,
        post.skills.installed == installed,
{
    assert(installed.len() == installed@.len());
}

} // verus!
