//! `morlana completions`: print a shell completion script.

use vstd::prelude::*;

use super::{
    finish, finish_ok, Action, ActionView, Cli, Command, Event, EventView, Progress, ProgressView, Stage,
};

verus! {

/// The shells a completion script can be written for.
#[derive(Clone, Copy, Debug, PartialEq, Eq)]
pub enum Shell {
    Bash,
    Elvish,
    Fish,
    PowerShell,
    Zsh,
}

/// Generate completions.
#[derive(Debug, PartialEq, Eq)]
pub struct CompletionCommand {
    /// Shell
    pub shell: Shell,
}

impl Command for CompletionCommand {
    open spec fn uses(&self, stage: Stage) -> bool {
        stage == Stage::Start || stage == Stage::Completions
    }

    open spec fn next(&self, p: ProgressView, e: EventView) -> (ProgressView, ActionView) {
        match p.stage {
            Stage::Start => (p.at(Stage::Completions), ActionView::PrintCompletions(self.shell)),
            _ => (p.at(Stage::Finished), finish_ok()),
        }
    }

    fn action(&self, global_options: &Cli, progress: Progress, event: Event) -> (r: (Progress, Action)) {
        match progress.stage {
            Stage::Start => (progress.at(Stage::Completions), Action::PrintCompletions(self.shell)),
            _ => finish(progress),
        }
    }
}

} // verus!
