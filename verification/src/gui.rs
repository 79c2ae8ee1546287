//! The state of the desktop app and how it changes as commands start, print,
//! finish or are stopped. Drawing the window and running the commands is left
//! to the caller, which reports each event here.

use vstd::prelude::*;
use vstd::string::*;
use crate::config::{spec_context_dir, context_dir, join_path, spec_join};
use crate::text::{concat_strs, i64_to_decimal, signed_decimal, to_lowercase, unicode_lowercase};

verus! {

broadcast use vstd::string::group_string_axioms;

/// What the app shows and whether a command is running.
pub struct GuiApp {
    pub project_path: String,
    pub status: String,
    pub output: String,
    pub running: bool,
}

impl GuiApp {
    /// The state on start-up: idle, with no output, for the given folder.
    pub fn new(project_path: String) -> (s: GuiApp)
        ensures
            s.project_path == project_path,
            s.status@ == "Idle"@,
            s.output@ == Seq::<char>::empty(),
            !s.running,
    {
        GuiApp { project_path, status: String::from_str("Idle"), output: String::new(), running: false }
    }

    /// Whether the command buttons can be pressed: only while nothing runs.
    pub fn actions_enabled(&self) -> (r: bool)
        ensures
            r == !self.running,
    {
        !self.running
    }

    /// Whether the Stop button can be pressed: only while a command runs.
    pub fn stop_enabled(&self) -> (r: bool)
        ensures
            r == self.running,
    {
        self.running
    }

    /// A command was started: it runs, the status says so, and the command
    /// line is echoed to the output.
    pub fn start_command(&mut self, command: &str)
        ensures
            final(self).running,
            final(self).project_path == old(self).project_path,
            final(self).status@ == "Running "@ + command@ + "…"@,
            final(self).output@ == old(self).output@ + "$ codebase-context-graph "@ + command@
                + " --project-root "@ + old(self).project_path@ + "\n"@,
    {
        self.running = true;
        self.status = concat_strs(concat_strs("Running ", command).as_str(), "…");
        self.output.append("$ codebase-context-graph ");
        self.output.append(command);
        self.output.append(" --project-root ");
        let project = self.project_path.clone();
        self.output.append(project.as_str());
        self.output.append("\n");
    }

    /// A line of the command's output (with its newline) arrived.
    pub fn receive_output(&mut self, text: &str)
        ensures
            final(self).output@ == old(self).output@ + text@,
            final(self).running == old(self).running,
            final(self).status == old(self).status,
            final(self).project_path == old(self).project_path,
    {
        self.output.append(text);
    }

    /// The command exited with `code`: nothing runs any more, and the status is
    /// "Idle" after success or "Failed (exit <code>)" otherwise.
    pub fn receive_exit(&mut self, code: i32)
        ensures
            !final(self).running,
            code == 0 ==> final(self).status@ == "Idle"@,
            code != 0 ==> final(self).status@ == "Failed (exit "@ + signed_decimal(code as int) + ")"@,
            final(self).output == old(self).output,
            final(self).project_path == old(self).project_path,
    {
        self.running = false;
        if code == 0 {
            self.status = String::from_str("Idle");
        } else {
            let c = i64_to_decimal(code as i64);
            self.status = concat_strs(concat_strs("Failed (exit ", c.as_str()).as_str(), ")");
        }
    }

    /// The user stopped the command: nothing runs, and the status says "Stopped".
    pub fn stop_command(&mut self)
        ensures
            !final(self).running,
            final(self).status@ == "Stopped"@,
            final(self).output == old(self).output,
            final(self).project_path == old(self).project_path,
    {
        self.running = false;
        self.status = String::from_str("Stopped");
    }

    /// The user cleared the output.
    pub fn clear_output(&mut self)
        ensures
            final(self).output@ == Seq::<char>::empty(),
            final(self).running == old(self).running,
            final(self).status == old(self).status,
            final(self).project_path == old(self).project_path,
    {
        self.output = String::new();
    }

    /// A file of the project's context folder.
    pub fn context_file(&self, name: &str) -> (path: String)
        ensures
            path@ == spec_join(spec_context_dir(self.project_path@), name@),
    {
        let dir = context_dir(self.project_path.as_str());
        join_path(dir.as_str(), name)
    }

    /// The project's context folder.
    pub fn context_folder(&self) -> (path: String)
        ensures
            path@ == spec_context_dir(self.project_path@),
    {
        context_dir(self.project_path.as_str())
    }
}

/// The command a button runs: its label in lower case.
pub fn button_command(label: &str) -> (command: String)
    ensures
        command@ == unicode_lowercase(label@),
{
    to_lowercase(label)
}

} // verus!
