//! Self-update: when to look, and what to tell the reader.
//!
//! A check is not session work: it outlives a sign-out and runs on the sign-in
//! screen, so it has a generation of its own.

use vstd::prelude::*;

use crate::app::{App, AppModel};
use crate::effects::{Effect, EffectModel};
use crate::msg::said_outcome;
use crate::palette::{Item, ItemModel, Target, TargetModel};
use crate::session::{after, bump};
use crate::text::{glue, glue3};

verus! {

/// What a check for updates came to.
#[derive(Debug)]
pub enum Outcome {
    /// No check was made, and why.
    Skipped(String),
    /// The last check is too recent.
    Throttled,
    UpToDate,
    /// Downloaded and verified; the next start applies it.
    Staged { version: String },
    /// Newer, but this binary is not replaceable in place.
    Available { version: String, html_url: String, why: String },
    /// Downloaded, but to be installed by hand.
    ManualInstall { version: String, command: String },
}

/// What the reader has been told about updates so far.
#[derive(Debug)]
pub enum UpdateState {
    Idle,
    Checking,
    UpToDate,
    Failed(String),
    /// Downloaded and verified; the next start applies it.
    Staged { version: String },
    /// Newer, but the release page is the way to it.
    Available { version: String, html_url: String },
    /// Downloaded; `command` installs it.
    Manual { version: String, command: String },
    /// This start swapped the binary; the running image is still the old one.
    JustApplied { version: String },
}

#[allow(inconsistent_fields)]
#[verifier::ext_equal]
pub enum UpdateModel {
    Idle,
    Checking,
    UpToDate,
    Failed(Seq<char>),
    Staged { version: Seq<char> },
    Available { version: Seq<char>, html_url: Seq<char> },
    Manual { version: Seq<char>, command: Seq<char> },
    JustApplied { version: Seq<char> },
}

impl View for UpdateState {
    type V = UpdateModel;

    open spec fn view(&self) -> UpdateModel {
        match *self {
            UpdateState::Idle => UpdateModel::Idle,
            UpdateState::Checking => UpdateModel::Checking,
            UpdateState::UpToDate => UpdateModel::UpToDate,
            UpdateState::Failed(e) => UpdateModel::Failed(e@),
            UpdateState::Staged { version } => UpdateModel::Staged { version: version@ },
            UpdateState::Available { version, html_url } => UpdateModel::Available {
                version: version@,
                html_url: html_url@,
            },
            UpdateState::Manual { version, command } => UpdateModel::Manual {
                version: version@,
                command: command@,
            },
            UpdateState::JustApplied { version } => UpdateModel::JustApplied { version: version@ },
        }
    }
}

/// How this build updates itself.
#[derive(Debug)]
pub struct UpdateConfig {
    pub disabled: bool,
    pub current_version: String,
}

/// The state of self-update.
#[derive(Debug)]
pub struct Updater {
    pub state: UpdateState,
    /// The check that counts.
    pub generation: u64,
    /// A check runs.
    pub task: bool,
    pub cfg: UpdateConfig,
}

#[verifier::ext_equal]
pub struct UpdaterModel {
    pub state: UpdateModel,
    pub generation: u64,
    pub task: bool,
    pub cfg: UpdateConfig,
}

impl View for Updater {
    type V = UpdaterModel;

    open spec fn view(&self) -> UpdaterModel {
        UpdaterModel {
            state: self.state@,
            generation: self.generation,
            task: self.task,
            cfg: self.cfg,
        }
    }
}

pub open spec fn applied_text(version: Seq<char>) -> Seq<char> {
    "Update v"@ + version + " applied — restart wftui to run it."@
}

pub open spec fn staged_text(version: Seq<char>) -> Seq<char> {
    "Update v"@ + version + " downloaded — restart wftui to apply it."@
}

pub open spec fn manual_text(version: Seq<char>, command: Seq<char>) -> Seq<char> {
    "Update v"@ + version + " downloaded; install it with: "@ + command
}

pub open spec fn available_text(version: Seq<char>, why: Seq<char>) -> Seq<char> {
    "wftui v"@ + version + " is available ("@ + why + ") — g u opens the release page."@
}

impl UpdateModel {
    /// Something waits for the reader.
    pub open spec fn waits(self) -> bool {
        self is Staged || self is JustApplied || self is Available || self is Manual
    }

    pub open spec fn chip(self) -> Option<Seq<char>> {
        match self {
            UpdateModel::Staged { version } => Some("update v"@ + version + " ready"@),
            UpdateModel::JustApplied { version } => Some("v"@ + version + " applied, restart"@),
            UpdateModel::Available { version, .. } => Some("update v"@ + version),
            UpdateModel::Manual { version, .. } => Some("update v"@ + version + " (manual)"@),
            _ => None,
        }
    }

    pub open spec fn row_title(self) -> Seq<char> {
        match self {
            UpdateModel::Staged { version } => "Update v"@ + version + " ready, restart to apply"@,
            UpdateModel::JustApplied { version } => "Update v"@ + version
                + " ready, restart to apply"@,
            UpdateModel::Available { version, .. } => "Update v"@ + version
                + ", open release page"@,
            UpdateModel::Manual { version, .. } => "Update v"@ + version + ", install by hand"@,
            _ => "Check for updates"@,
        }
    }
}

impl AppModel {
    /// A check under way. It supersedes the one that runs.
    pub open spec fn update_check(self, forced: bool, delayed: bool) -> AppModel {
        let a = if self.updater.task {
            self.asking(EffectModel::AbortUpdateCheck)
        } else {
            self
        };
        let generation = after(self.updater.generation);
        AppModel {
            updater: UpdaterModel {
                generation,
                state: UpdateModel::Checking,
                task: true,
                ..a.updater
            },
            ..a
        }.asking(EffectModel::CheckUpdate { generation, forced, delayed })
    }

    /// The check at start-up: not where updates are off, and not where this
    /// very start applied one.
    pub open spec fn startup_check(self) -> AppModel {
        if self.updater.cfg.disabled || self.updater.state is JustApplied {
            self
        } else {
            self.update_check(false, true)
        }
    }

    /// The reader asks. What is already known is acted on before anything is
    /// asked again.
    pub open spec fn update_asked(self) -> AppModel {
        if self.updater.cfg.disabled {
            self.status("Updates are disabled (WFTUI_NO_UPDATE)."@)
        } else {
            match self.updater.state {
                UpdateModel::JustApplied { version } => self.hint(applied_text(version)),
                UpdateModel::Staged { version } => self.hint(staged_text(version)),
                UpdateModel::Manual { version, command } => self.hint(
                    manual_text(version, command),
                ),
                UpdateModel::Available { html_url, .. } => self.url_opened(html_url),
                UpdateModel::Checking => self.status("Already checking for updates…"@),
                _ => self.status("Checking for updates…"@).update_check(true, false),
            }
        }
    }

    /// A check's verdict. An automatic check speaks up only where there is
    /// something to act on; one that was asked for always answers.
    pub open spec fn update_checked(
        self,
        generation: u64,
        forced: bool,
        result: Result<Outcome, Seq<char>>,
    ) -> AppModel {
        if generation != self.updater.generation {
            self
        } else {
            let v = verdict(result, forced, self.updater.cfg.current_version@);
            AppModel {
                updater: UpdaterModel { task: false, state: v.0, ..self.updater },
                ..self
            }.telling(v.1)
        }
    }

    pub open spec fn telling(self, s: SaidModel) -> AppModel {
        match s {
            SaidModel::Nothing => self,
            SaidModel::Toast(s) => self.status(s),
            SaidModel::Hint(s) => self.hint(s),
        }
    }
}

/// Something for the status row.
#[derive(Debug)]
pub enum Said {
    Nothing,
    Toast(String),
    Hint(String),
}

pub enum SaidModel {
    Nothing,
    Toast(Seq<char>),
    Hint(Seq<char>),
}

impl View for Said {
    type V = SaidModel;

    open spec fn view(&self) -> SaidModel {
        match *self {
            Said::Nothing => SaidModel::Nothing,
            Said::Toast(s) => SaidModel::Toast(s@),
            Said::Hint(s) => SaidModel::Hint(s@),
        }
    }
}

/// A toast, where an answer was asked for.
pub open spec fn if_asked(forced: bool, s: Seq<char>) -> SaidModel {
    if forced {
        SaidModel::Toast(s)
    } else {
        SaidModel::Nothing
    }
}

/// What a check leaves known, and what it says.
pub open spec fn verdict(
    result: Result<Outcome, Seq<char>>,
    forced: bool,
    current: Seq<char>,
) -> (UpdateModel, SaidModel) {
    match result {
        Ok(Outcome::Skipped(why)) => (
            UpdateModel::Idle,
            if_asked(forced, "Updates unavailable: "@ + why@ + "."@),
        ),
        Ok(Outcome::Throttled) => (
            UpdateModel::Idle,
            if_asked(forced, "Update check skipped: checked recently."@),
        ),
        Ok(Outcome::UpToDate) => (
            UpdateModel::UpToDate,
            if_asked(forced, "wftui v"@ + current + " is up to date."@),
        ),
        Ok(Outcome::Staged { version }) => (
            UpdateModel::Staged { version: version@ },
            SaidModel::Hint(staged_text(version@)),
        ),
        Ok(Outcome::Available { version, html_url, why }) => (
            UpdateModel::Available { version: version@, html_url: html_url@ },
            SaidModel::Hint(available_text(version@, why@)),
        ),
        Ok(Outcome::ManualInstall { version, command }) => (
            UpdateModel::Manual { version: version@, command: command@ },
            SaidModel::Hint(manual_text(version@, command@)),
        ),
        Err(e) => (UpdateModel::Failed(e), if_asked(forced, "Update check failed: "@ + e)),
    }
}

fn when_asked(forced: bool, s: String) -> (r: Said)
    ensures
        r@ == if_asked(forced, s@),
{
    if forced {
        Said::Toast(s)
    } else {
        Said::Nothing
    }
}

/// What a check leaves known, and what to say of it.
pub fn judge(result: Result<Outcome, String>, forced: bool, current: &str) -> (r: (
    UpdateState,
    Said,
))
    ensures
        (r.0@, r.1@) == verdict(said_outcome(result), forced, current@),
{
    match result {
        Ok(Outcome::Skipped(why)) => (
            UpdateState::Idle,
            when_asked(forced, glue3("Updates unavailable: ", why.as_str(), ".")),
        ),
        Ok(Outcome::Throttled) => (
            UpdateState::Idle,
            when_asked(forced, "Update check skipped: checked recently.".to_owned()),
        ),
        Ok(Outcome::UpToDate) => (
            UpdateState::UpToDate,
            when_asked(forced, glue3("wftui v", current, " is up to date.")),
        ),
        Ok(Outcome::Staged { version }) => {
            let notice = staged_notice(version.as_str());
            (UpdateState::Staged { version }, Said::Hint(notice))
        },
        Ok(Outcome::Available { version, html_url, why }) => {
            let mut s = glue3("wftui v", version.as_str(), " is available (");
            s.append(why.as_str());
            s.append(") — g u opens the release page.");
            (UpdateState::Available { version, html_url }, Said::Hint(s))
        },
        Ok(Outcome::ManualInstall { version, command }) => {
            let notice = manual_notice(version.as_str(), command.as_str());
            (UpdateState::Manual { version, command }, Said::Hint(notice))
        },
        Err(e) => {
            let s = glue("Update check failed: ", e.as_str());
            (UpdateState::Failed(e), when_asked(forced, s))
        },
    }
}

fn staged_notice(version: &str) -> (r: String)
    ensures
        r@ == staged_text(version@),
{
    glue3("Update v", version, " downloaded — restart wftui to apply it.")
}

fn manual_notice(version: &str, command: &str) -> (r: String)
    ensures
        r@ == manual_text(version@, command@),
{
    let mut s = glue3("Update v", version, " downloaded; install it with: ");
    s.append(command);
    s
}

impl App {
    /// The one check of a start, a little after the first frame.
    pub fn schedule_startup_update_check(&mut self)
        ensures
            final(self)@ == old(self)@.startup_check(),
    {
        let applied = match &self.updater.state {
            UpdateState::JustApplied { .. } => true,
            _ => false,
        };
        if self.updater.cfg.disabled || applied {
            return;
        }
        self.spawn_update_check(false, true);
    }

    /// `g u` and the palette's row.
    pub fn check_for_updates_now(&mut self)
        ensures
            final(self)@ == old(self)@.update_asked(),
    {
        if self.updater.cfg.disabled {
            self.set_status("Updates are disabled (WFTUI_NO_UPDATE).".to_owned());
            return;
        }
        let mut hint: Option<String> = None;
        let mut page: Option<String> = None;
        let mut checking = false;
        match &self.updater.state {
            UpdateState::JustApplied { version } => {
                hint = Some(
                    glue3("Update v", version.as_str(), " applied — restart wftui to run it."),
                );
            },
            UpdateState::Staged { version } => {
                hint = Some(staged_notice(version.as_str()));
            },
            UpdateState::Manual { version, command } => {
                hint = Some(manual_notice(version.as_str(), command.as_str()));
            },
            UpdateState::Available { html_url, .. } => {
                page = Some(html_url.clone());
            },
            UpdateState::Checking => {
                checking = true;
            },
            _ => {},
        }
        if let Some(s) = hint {
            self.set_hint(s);
        } else if let Some(url) = page {
            self.open_url(url.as_str());
        } else if checking {
            self.set_status("Already checking for updates…".to_owned());
        } else {
            self.set_status("Checking for updates…".to_owned());
            self.spawn_update_check(true, false);
        }
    }

    fn spawn_update_check(&mut self, forced: bool, delayed: bool)
        ensures
            final(self)@ == old(self)@.update_check(forced, delayed),
    {
        if self.updater.task {
            self.ask(Effect::AbortUpdateCheck);
        }
        let generation: u64 = bump(self.updater.generation);
        self.updater.generation = generation;
        self.updater.state = UpdateState::Checking;
        self.updater.task = true;
        self.ask(Effect::CheckUpdate { generation, forced, delayed });
    }

    /// A check's verdict.
    pub fn handle_update_checked(
        &mut self,
        generation: u64,
        forced: bool,
        result: Result<Outcome, String>,
    )
        ensures
            final(self)@ == old(self)@.update_checked(generation, forced, said_outcome(result)),
    {
        if generation != self.updater.generation {
            return;
        }
        let (update, said) = judge(result, forced, self.updater.cfg.current_version.as_str());
        self.updater.task = false;
        self.updater.state = update;
        match said {
            Said::Nothing => {},
            Said::Toast(s) => self.set_status(s),
            Said::Hint(s) => self.set_hint(s),
        }
    }

    /// The header's chip, while something waits for the reader.
    pub fn update_chip(&self) -> (r: Option<String>)
        ensures
            match r {
                Some(s) => self@.updater.state.chip() == Some(s@),
                None => self@.updater.state.chip() is None,
            },
            r is Some <==> self@.updater.state.waits(),
    {
        match &self.updater.state {
            UpdateState::Staged { version } => Some(glue3("update v", version.as_str(), " ready")),
            UpdateState::JustApplied { version } => Some(
                glue3("v", version.as_str(), " applied, restart"),
            ),
            UpdateState::Available { version, .. } => Some(glue("update v", version.as_str())),
            UpdateState::Manual { version, .. } => Some(
                glue3("update v", version.as_str(), " (manual)"),
            ),
            _ => None,
        }
    }

    /// The palette's row, worded for what it will do.
    pub fn update_palette_item(&self) -> (r: Item)
        ensures
            r@ == (ItemModel {
                title: self@.updater.state.row_title(),
                key: "gu"@,
                target: TargetModel::Update,
            }),
    {
        let title = match &self.updater.state {
            UpdateState::Staged { version } => glue3(
                "Update v",
                version.as_str(),
                " ready, restart to apply",
            ),
            UpdateState::JustApplied { version } => glue3(
                "Update v",
                version.as_str(),
                " ready, restart to apply",
            ),
            UpdateState::Available { version, .. } => glue3(
                "Update v",
                version.as_str(),
                ", open release page",
            ),
            UpdateState::Manual { version, .. } => glue3(
                "Update v",
                version.as_str(),
                ", install by hand",
            ),
            _ => "Check for updates".to_owned(),
        };
        Item { title, key: "gu".to_owned(), target: Target::Update }
    }
}

/// The verdict of a check that was superseded changes nothing.
pub proof fn a_superseded_update_check_is_dropped(
    app: AppModel,
    generation: u64,
    forced: bool,
    result: Result<Outcome, Seq<char>>,
)
    requires
        generation != app.updater.generation,
    ensures
        app.update_checked(generation, forced, result) == app,
{
}

/// An automatic check says nothing unless there is something to act on.
pub proof fn an_automatic_check_is_quiet(
    app: AppModel,
    generation: u64,
    result: Result<Outcome, Seq<char>>,
)
    requires
        !app.update_checked(generation, false, result).updater.state.waits(),
    ensures
        app.update_checked(generation, false, result).status == app.status,
        app.update_checked(generation, false, result).status_set_at == app.status_set_at,
{
}

/// A check that was asked for always answers, whatever came of it: its verdict
/// has something to say, and the status row then says that.
pub proof fn a_check_that_was_asked_for_answers(
    app: AppModel,
    result: Result<Outcome, Seq<char>>,
)
    ensures
        ({
            let said = verdict(result, true, app.updater.cfg.current_version@).1;
            let next = app.update_checked(app.updater.generation, true, result);
            match said {
                SaidModel::Nothing => false,
                SaidModel::Toast(s) => s.len() > 0 && next.status == s
                    && next.status_set_at == Some(app.clock),
                SaidModel::Hint(s) => s.len() > 0 && next.status == s && next.status_set_at is None,
            }
        }),
{
    reveal_strlit("Updates unavailable: ");
    reveal_strlit("Update check skipped: checked recently.");
    reveal_strlit("wftui v");
    reveal_strlit("Update v");
    reveal_strlit("Update check failed: ");
}

} // verus!
