//! In-memory, recording implementations of the capability traits.
//!
//! Each capability has exactly one production implementation (which performs
//! real I/O and lives outside the verified library) and one recording
//! implementation here. The recording ones are verified against the trait
//! contracts and make the engine fully deterministic, so the workflow can be
//! exercised end to end without a file system, a terminal or a repository.

use vstd::prelude::*;

use crate::file_handler::{ConfigManagement, FileManagement};
use crate::git::{GitCapability, GitOp};
use crate::printer::{Print, PrintColor, PrintEvent};
use crate::program_access::{OpenEvent, ProgramOpener};
use crate::reader::ReadInput;
use crate::types::{CapabilityError, ConfigFile};

verus! {

/// Holds the two config values and the existence of their backing location
/// in plain fields. With `fail_io` set, every mutating operation reports a
/// failure and changes nothing, which simulates a broken environment.
pub struct InMemoryConfig {
    pub repo: Option<String>,
    pub branch: Option<String>,
    pub dir_created: bool,
    pub fail_io: bool,
}

impl ConfigManagement for InMemoryConfig {
    open spec fn stored(&self, file: ConfigFile) -> Option<Seq<char>> {
        match file {
            ConfigFile::Repo => match self.repo {
                Some(s) => Some(s@),
                None => None,
            },
            ConfigFile::Branch => match self.branch {
                Some(s) => Some(s@),
                None => None,
            },
        }
    }

    open spec fn has_config_dir(&self) -> bool {
        self.dir_created
    }

    fn config_dir_exists(&self) -> (r: bool) {
        self.dir_created
    }

    fn config_dir_create(&mut self) -> (r: Result<(), CapabilityError>) {
        if self.fail_io {
            Err(CapabilityError)
        } else {
            self.dir_created = true;
            Ok(())
        }
    }

    fn config_read(&self, file: ConfigFile) -> (r: Result<String, CapabilityError>) {
        match file {
            ConfigFile::Repo => match &self.repo {
                Some(s) => Ok(s.clone()),
                None => Err(CapabilityError),
            },
            ConfigFile::Branch => match &self.branch {
                Some(s) => Ok(s.clone()),
                None => Err(CapabilityError),
            },
        }
    }

    fn config_write(&mut self, file: ConfigFile, value: String) -> (r: Result<
        (),
        CapabilityError,
    >) {
        if self.fail_io {
            return Err(CapabilityError);
        }
        match file {
            ConfigFile::Repo => {
                self.repo = Some(value);
            },
            ConfigFile::Branch => {
                self.branch = Some(value);
            },
        }
        Ok(())
    }
}

impl FileManagement for InMemoryConfig {
    fn file_rm(&mut self, file: ConfigFile) -> (r: Result<(), CapabilityError>) {
        if self.fail_io {
            return Err(CapabilityError);
        }
        match file {
            ConfigFile::Repo => {
                if self.repo.is_some() {
                    self.repo = None;
                    Ok(())
                } else {
                    Err(CapabilityError)
                }
            },
            ConfigFile::Branch => {
                if self.branch.is_some() {
                    self.branch = None;
                    Ok(())
                } else {
                    Err(CapabilityError)
                }
            },
        }
    }
}

/// One recorded call to the printer.
#[derive(Debug, PartialEq, Eq)]
pub enum PrintCall {
    Plain(String),
    Line(String),
    Banner,
    Header(String),
}

impl View for PrintCall {
    type V = PrintEvent;

    open spec fn view(&self) -> PrintEvent {
        match self {
            PrintCall::Plain(s) => PrintEvent::Plain(s@),
            PrintCall::Line(s) => PrintEvent::Line(s@),
            PrintCall::Banner => PrintEvent::Banner,
            PrintCall::Header(s) => PrintEvent::Header(s@),
        }
    }
}

/// Records everything written, in order, instead of rendering it.
pub struct RecordingPrinter {
    pub calls: Vec<PrintCall>,
}

impl Print for RecordingPrinter {
    open spec fn log(&self) -> Seq<PrintEvent> {
        self.calls@.map_values(|c: PrintCall| c@)
    }

    fn print(&mut self, value: &str) {
        self.calls.push(PrintCall::Plain(value.to_owned()));
        proof {
            assert(self.log() =~= old(self).log().push(PrintEvent::Plain(value@)));
        }
    }

    fn println(&mut self, value: &str) {
        self.calls.push(PrintCall::Line(value.to_owned()));
        proof {
            assert(self.log() =~= old(self).log().push(PrintEvent::Line(value@)));
        }
    }
}

impl PrintColor for RecordingPrinter {
    fn fts_banner(&mut self) {
        self.calls.push(PrintCall::Banner);
        proof {
            assert(self.log() =~= old(self).log().push(PrintEvent::Banner));
        }
    }

    fn input_header(&mut self, value: &str) {
        self.calls.push(PrintCall::Header(value.to_owned()));
        proof {
            assert(self.log() =~= old(self).log().push(PrintEvent::Header(value@)));
        }
    }
}

/// Hands out a fixed list of lines, in order, and empty lines once the list
/// is exhausted.
pub struct ScriptedReader {
    pub lines: Vec<String>,
    pub cursor: usize,
}

impl ReadInput for ScriptedReader {
    open spec fn pending(&self) -> Seq<Seq<char>> {
        if self.cursor <= self.lines@.len() {
            self.lines@.skip(self.cursor as int).map_values(|s: String| s@)
        } else {
            Seq::empty()
        }
    }

    fn read_input(&mut self) -> (r: String) {
        if self.cursor < self.lines.len() {
            let line = self.lines[self.cursor].clone();
            self.cursor = self.cursor + 1;
            proof {
                assert(old(self).pending()[0] == line@);
                assert(self.pending() =~= old(self).pending().skip(1));
            }
            line
        } else {
            String::new()
        }
    }
}

/// One recorded program launch.
#[derive(Debug, PartialEq, Eq)]
pub enum OpenCall {
    Editor(String),
    Pager(String),
}

impl View for OpenCall {
    type V = OpenEvent;

    open spec fn view(&self) -> OpenEvent {
        match self {
            OpenCall::Editor(s) => OpenEvent::Editor(s@),
            OpenCall::Pager(s) => OpenEvent::Pager(s@),
        }
    }
}

/// Records every launch instead of spawning a program; the two `fail_*`
/// flags decide what each launch reports back.
pub struct RecordingOpener {
    pub calls: Vec<OpenCall>,
    pub fail_editor: bool,
    pub fail_pager: bool,
}

impl ProgramOpener for RecordingOpener {
    open spec fn opened(&self) -> Seq<OpenEvent> {
        self.calls@.map_values(|c: OpenCall| c@)
    }

    fn open_editor(&mut self, path: &str) -> (r: Result<(), CapabilityError>) {
        self.calls.push(OpenCall::Editor(path.to_owned()));
        proof {
            assert(self.opened() =~= old(self).opened().push(OpenEvent::Editor(path@)));
        }
        if self.fail_editor {
            Err(CapabilityError)
        } else {
            Ok(())
        }
    }

    fn open_pager(&mut self, path: &str) -> (r: Result<(), CapabilityError>) {
        self.calls.push(OpenCall::Pager(path.to_owned()));
        proof {
            assert(self.opened() =~= old(self).opened().push(OpenEvent::Pager(path@)));
        }
        if self.fail_pager {
            Err(CapabilityError)
        } else {
            Ok(())
        }
    }
}

/// One recorded git operation.
#[derive(Debug, PartialEq, Eq)]
pub enum GitCall {
    Checkout(String),
    Add,
    Commit(String),
    Push(String),
}

impl View for GitCall {
    type V = GitOp;

    open spec fn view(&self) -> GitOp {
        match self {
            GitCall::Checkout(s) => GitOp::Checkout(s@),
            GitCall::Add => GitOp::Add,
            GitCall::Commit(s) => GitOp::Commit(s@),
            GitCall::Push(s) => GitOp::Push(s@),
        }
    }
}

/// Records every requested operation instead of touching a repository. The
/// four const parameters decide what each kind of operation reports back,
/// so a run can be steered into any synchronization failure.
pub struct ScriptedGit<
    const CHECKOUT_OK: bool,
    const ADD_OK: bool,
    const COMMIT_OK: bool,
    const PUSH_OK: bool,
> {
    pub repo: String,
    pub calls: Vec<GitCall>,
}

impl<
    const CHECKOUT_OK: bool,
    const ADD_OK: bool,
    const COMMIT_OK: bool,
    const PUSH_OK: bool,
> GitCapability for ScriptedGit<CHECKOUT_OK, ADD_OK, COMMIT_OK, PUSH_OK> {
    open spec fn repo_path(&self) -> Seq<char> {
        self.repo@
    }

    open spec fn log(&self) -> Seq<GitOp> {
        self.calls@.map_values(|c: GitCall| c@)
    }

    fn new(repo_path: String) -> (g: Self) {
        let g = ScriptedGit { repo: repo_path, calls: Vec::new() };
        proof {
            assert(g.log() =~= Seq::<GitOp>::empty());
        }
        g
    }

    fn checkout_branch(&mut self, branch_name: &str) -> (r: Result<(), CapabilityError>) {
        self.calls.push(GitCall::Checkout(branch_name.to_owned()));
        proof {
            assert(self.log() =~= old(self).log().push(GitOp::Checkout(branch_name@)));
        }
        if CHECKOUT_OK {
            Ok(())
        } else {
            Err(CapabilityError)
        }
    }

    fn add(&mut self) -> (r: Result<(), CapabilityError>) {
        self.calls.push(GitCall::Add);
        proof {
            assert(self.log() =~= old(self).log().push(GitOp::Add));
        }
        if ADD_OK {
            Ok(())
        } else {
            Err(CapabilityError)
        }
    }

    fn commit(&mut self, commit_subject: String) -> (r: Result<(), CapabilityError>) {
        let ghost subject = commit_subject@;
        self.calls.push(GitCall::Commit(commit_subject));
        proof {
            assert(self.log() =~= old(self).log().push(GitOp::Commit(subject)));
        }
        if COMMIT_OK {
            Ok(())
        } else {
            Err(CapabilityError)
        }
    }

    fn push(&mut self, branch_name: &str) -> (r: Result<(), CapabilityError>) {
        self.calls.push(GitCall::Push(branch_name.to_owned()));
        proof {
            assert(self.log() =~= old(self).log().push(GitOp::Push(branch_name@)));
        }
        if PUSH_OK {
            Ok(())
        } else {
            Err(CapabilityError)
        }
    }
}

} // verus!
