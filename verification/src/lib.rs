pub mod doubles;
pub mod file_handler;
pub mod git;
pub mod printer;
pub mod program_access;
pub mod reader;
pub mod types;

use vstd::prelude::*;

use crate::file_handler::{ConfigManagement, FileManagement};
use crate::git::{GitCapability, GitOp};
use crate::printer::{Print, PrintColor, PrintEvent};
use crate::program_access::{OpenEvent, ProgramOpener};
use crate::reader::{
    first_nonempty_line, has_nonempty_line, next_line, prompts_needed, remaining_after, ReadInput,
};
use crate::types::{ConfigFile, EurekaError, FatalError};

verus! {

/// The text of the repository-path prompt.
pub open spec fn repo_prompt_text() -> Seq<char> {
    "Absolute path to your idea repo"@
}

/// The text of the branch-name prompt.
pub open spec fn branch_prompt_text() -> Seq<char> {
    "Name of branch (default: master)"@
}

/// The text of the idea-summary prompt.
pub open spec fn idea_prompt_text() -> Seq<char> {
    ">> Idea summary"@
}

/// The line confirming that first-time setup finished.
pub open spec fn setup_complete_text() -> Seq<char> {
    "First time setup complete. Happy ideation!"@
}

/// The status line printed before the commit sequence starts.
pub open spec fn committing_text() -> Seq<char> {
    "Adding and committing your new idea.."@
}

/// The confirmation printed once the commit sequence succeeded.
pub open spec fn committed_text() -> Seq<char> {
    "Added and committed!"@
}

/// The status line printed before the push.
pub open spec fn pushing_text() -> Seq<char> {
    "Pushing your new idea.."@
}

/// The confirmation printed once the push succeeded.
pub open spec fn pushed_text() -> Seq<char> {
    "Pushed!"@
}

/// The branch name substituted when the user enters an empty line.
pub open spec fn default_branch_text() -> Seq<char> {
    "master"@
}

/// The idea file: always `README.md` at the root of the configured
/// repository path.
pub open spec fn readme_path(repo: Seq<char>) -> Seq<char> {
    repo + "/README.md"@
}

/// The branch name that setup stores for a given input line: the line
/// itself, or `master` when the line is empty.
pub open spec fn branch_choice(raw: Seq<char>) -> Seq<char> {
    if raw.len() == 0 {
        default_branch_text()
    } else {
        raw
    }
}

/// `n` repetitions of the same input-prompt header.
pub open spec fn header_run(text: Seq<char>, n: nat) -> Seq<PrintEvent> {
    Seq::new(n, |i| PrintEvent::Header(text))
}

/// What a single clear attempt may leave behind: the key untouched (the
/// removal failed or never ran) or properly deleted.
pub open spec fn clear_key_post(pre: Option<Seq<char>>, post: Option<Seq<char>>) -> bool {
    post == pre || (pre is Some && post is None)
}

/// The input options of one `run` call: three independent flags. The clear
/// flags are handled first and short-circuit everything else; `view` is
/// handled next and does not short-circuit normal operation.
pub struct EurekaOptions {
    pub clear_repo: bool,
    pub clear_branch: bool,
    pub view: bool,
}

/// The workflow engine. It composes the injected capabilities and never
/// talks to the outside world directly: every effect goes through one of
/// them, so the engine can be run against recording doubles as well as the
/// production implementations.
pub struct Eureka<FH, W, R, PO, G> where
    FH: ConfigManagement + FileManagement,
    W: Print + PrintColor,
    R: ReadInput,
    PO: ProgramOpener,
    G: GitCapability,
{
    pub fh: FH,
    pub printer: W,
    pub reader: R,
    pub git: Option<G>,
    pub program_opener: PO,
}

impl<FH, W, R, PO, G> Eureka<FH, W, R, PO, G> where
    FH: ConfigManagement + FileManagement,
    W: Print + PrintColor,
    R: ReadInput,
    PO: ProgramOpener,
    G: GitCapability,
{
    /// Config is complete exactly when both keys are present.
    pub open spec fn config_complete(&self) -> bool {
        self.fh.stored(ConfigFile::Repo) is Some && self.fh.stored(ConfigFile::Branch) is Some
    }

    /// Neither stored key changed between the two states.
    pub open spec fn keys_unchanged(pre: Self, post: Self) -> bool {
        &&& post.fh.stored(ConfigFile::Repo) == pre.fh.stored(ConfigFile::Repo)
        &&& post.fh.stored(ConfigFile::Branch) == pre.fh.stored(ConfigFile::Branch)
    }

    /// The backing config location did not appear or vanish.
    pub open spec fn dir_unchanged(pre: Self, post: Self) -> bool {
        post.fh.has_config_dir() == pre.fh.has_config_dir()
    }

    /// Nothing about the config store changed.
    pub open spec fn store_unchanged(pre: Self, post: Self) -> bool {
        Self::keys_unchanged(pre, post) && Self::dir_unchanged(pre, post)
    }

    /// Nothing was printed between the two states.
    pub open spec fn log_unchanged(pre: Self, post: Self) -> bool {
        post.printer.log() == pre.printer.log()
    }

    /// No input was consumed between the two states.
    pub open spec fn input_unchanged(pre: Self, post: Self) -> bool {
        post.reader.pending() == pre.reader.pending()
    }

    /// No program was launched between the two states.
    pub open spec fn opener_unchanged(pre: Self, post: Self) -> bool {
        post.program_opener.opened() == pre.program_opener.opened()
    }

    /// The git session slot was not touched between the two states.
    pub open spec fn git_unchanged(pre: Self, post: Self) -> bool {
        post.git == pre.git
    }

    pub fn new(fh: FH, printer: W, reader: R, program_opener: PO) -> (e: Self)
        ensures
            e.fh == fh,
            e.printer == printer,
            e.reader == reader,
            e.program_opener == program_opener,
            e.git is None,
    {
        Eureka { fh, printer, reader, git: None, program_opener }
    }

    /// The sole branch condition between first-time setup and idea capture:
    /// true exactly when either key is unreadable.
    pub fn is_config_missing(&self) -> (missing: bool)
        ensures
            missing == !self.config_complete(),
    {
        self.fh.config_read(ConfigFile::Repo).is_err() || self.fh.config_read(
            ConfigFile::Branch,
        ).is_err()
    }

    /// Clears the stored repository path. Deleting a key that was never
    /// configured is a user-visible error, not a silent no-op, so the key is
    /// read before it is removed.
    pub fn clear_repo(&mut self) -> (r: Result<(), EurekaError>)
        ensures
            Self::dir_unchanged(*old(self), *final(self)),
            Self::log_unchanged(*old(self), *final(self)),
            Self::input_unchanged(*old(self), *final(self)),
            Self::opener_unchanged(*old(self), *final(self)),
            Self::git_unchanged(*old(self), *final(self)),
            final(self).fh.stored(ConfigFile::Branch) == old(self).fh.stored(ConfigFile::Branch),
            clear_key_post(
                old(self).fh.stored(ConfigFile::Repo),
                final(self).fh.stored(ConfigFile::Repo),
            ),
            old(self).fh.stored(ConfigFile::Repo) is None ==> r == Err::<(), EurekaError>(
                EurekaError::Recoverable,
            ) && final(self).fh.stored(ConfigFile::Repo) == old(self).fh.stored(ConfigFile::Repo),
            r == (if old(self).fh.stored(ConfigFile::Repo) is Some && final(self).fh.stored(
                ConfigFile::Repo,
            ) is None {
                Ok::<(), EurekaError>(())
            } else {
                Err::<(), EurekaError>(EurekaError::Recoverable)
            }),
    {
        match self.fh.config_read(ConfigFile::Repo) {
            Ok(_) => match self.fh.file_rm(ConfigFile::Repo) {
                Ok(_) => Ok(()),
                Err(_) => Err(EurekaError::Recoverable),
            },
            Err(_) => Err(EurekaError::Recoverable),
        }
    }

    /// Clears the stored branch name, with the same read-before-delete
    /// behaviour as `clear_repo`.
    pub fn clear_branch(&mut self) -> (r: Result<(), EurekaError>)
        ensures
            Self::dir_unchanged(*old(self), *final(self)),
            Self::log_unchanged(*old(self), *final(self)),
            Self::input_unchanged(*old(self), *final(self)),
            Self::opener_unchanged(*old(self), *final(self)),
            Self::git_unchanged(*old(self), *final(self)),
            final(self).fh.stored(ConfigFile::Repo) == old(self).fh.stored(ConfigFile::Repo),
            clear_key_post(
                old(self).fh.stored(ConfigFile::Branch),
                final(self).fh.stored(ConfigFile::Branch),
            ),
            old(self).fh.stored(ConfigFile::Branch) is None ==> r == Err::<(), EurekaError>(
                EurekaError::Recoverable,
            ) && final(self).fh.stored(ConfigFile::Branch) == old(self).fh.stored(
                ConfigFile::Branch,
            ),
            r == (if old(self).fh.stored(ConfigFile::Branch) is Some && final(self).fh.stored(
                ConfigFile::Branch,
            ) is None {
                Ok::<(), EurekaError>(())
            } else {
                Err::<(), EurekaError>(EurekaError::Recoverable)
            }),
    {
        match self.fh.config_read(ConfigFile::Branch) {
            Ok(_) => match self.fh.file_rm(ConfigFile::Branch) {
                Ok(_) => Ok(()),
                Err(_) => Err(EurekaError::Recoverable),
            },
            Err(_) => Err(EurekaError::Recoverable),
        }
    }

    /// Opens the idea file in the read-only pager. Fails when the repository
    /// path is not configured, and propagates a pager failure.
    pub fn open_idea_file(&mut self) -> (r: Result<(), EurekaError>)
        ensures
            Self::store_unchanged(*old(self), *final(self)),
            Self::log_unchanged(*old(self), *final(self)),
            Self::input_unchanged(*old(self), *final(self)),
            Self::git_unchanged(*old(self), *final(self)),
            (match old(self).fh.stored(ConfigFile::Repo) {
                None => r == Err::<(), EurekaError>(EurekaError::Recoverable)
                    && Self::opener_unchanged(*old(self), *final(self)),
                Some(repo) => final(self).program_opener.opened() == old(
                    self,
                ).program_opener.opened().push(OpenEvent::Pager(readme_path(repo))) && (r == Ok::<
                    (),
                    EurekaError,
                >(()) || r == Err::<(), EurekaError>(EurekaError::Recoverable)),
            }),
    {
        let repo_path = match self.fh.config_read(ConfigFile::Repo) {
            Ok(p) => p,
            Err(_) => {
                return Err(EurekaError::Recoverable);
            },
        };
        let full_path = repo_path.concat("/README.md");
        match self.program_opener.open_pager(full_path.as_str()) {
            Ok(_) => Ok(()),
            Err(_) => Err(EurekaError::Recoverable),
        }
    }

    /// Constructs the git session, bound to the configured repository path.
    /// The session must not be constructed before that path is confirmed
    /// present; the precondition rules the violation out.
    pub fn init_git(&mut self)
        requires
            old(self).fh.stored(ConfigFile::Repo) is Some,
        ensures
            Self::store_unchanged(*old(self), *final(self)),
            Self::log_unchanged(*old(self), *final(self)),
            Self::input_unchanged(*old(self), *final(self)),
            Self::opener_unchanged(*old(self), *final(self)),
            final(self).git is Some,
            final(self).git.unwrap().repo_path() == old(self).fh.stored(ConfigFile::Repo).unwrap(),
            final(self).git.unwrap().log() == Seq::<GitOp>::empty(),
    {
        let repo_path = match self.fh.config_read(ConfigFile::Repo) {
            Ok(p) => p,
            Err(_) => unreached(),
        };
        self.git = Some(G::new(repo_path));
    }

    /// The git synchronization sequence: checkout, stage, commit, push, with
    /// status lines around it. Every step's failure is fatal; a later step
    /// never runs after an earlier one failed, so a failed commit is never
    /// followed by a push.
    pub fn git_add_commit_push(&mut self, commit_subject: String) -> (r: Result<(), EurekaError>)
        requires
            old(self).git is Some,
            old(self).fh.stored(ConfigFile::Branch) is Some,
        ensures
            Self::store_unchanged(*old(self), *final(self)),
            Self::input_unchanged(*old(self), *final(self)),
            Self::opener_unchanged(*old(self), *final(self)),
            final(self).git is Some,
            final(self).git.unwrap().repo_path() == old(self).git.unwrap().repo_path(),
            ({
                let ops0 = old(self).git.unwrap().log();
                let ops1 = final(self).git.unwrap().log();
                let log0 = old(self).printer.log();
                let log1 = final(self).printer.log();
                let branch = old(self).fh.stored(ConfigFile::Branch).unwrap();
                match r {
                    Ok(()) => ops1 == ops0 + seq![
                        GitOp::Checkout(branch),
                        GitOp::Add,
                        GitOp::Commit(commit_subject@),
                        GitOp::Push(branch),
                    ] && log1 == log0 + seq![
                        PrintEvent::Line(committing_text()),
                        PrintEvent::Line(committed_text()),
                        PrintEvent::Line(pushing_text()),
                        PrintEvent::Line(pushed_text()),
                    ],
                    Err(EurekaError::Fatal(FatalError::CheckoutFailed)) => ops1 == ops0 + seq![
                        GitOp::Checkout(branch),
                    ] && log1 == log0 + seq![PrintEvent::Line(committing_text())],
                    Err(EurekaError::Fatal(FatalError::StageFailed)) => ops1 == ops0 + seq![
                        GitOp::Checkout(branch),
                        GitOp::Add,
                    ] && log1 == log0 + seq![PrintEvent::Line(committing_text())],
                    Err(EurekaError::Fatal(FatalError::CommitFailed)) => ops1 == ops0 + seq![
                        GitOp::Checkout(branch),
                        GitOp::Add,
                        GitOp::Commit(commit_subject@),
                    ] && log1 == log0 + seq![PrintEvent::Line(committing_text())],
                    Err(EurekaError::Fatal(FatalError::PushFailed)) => ops1 == ops0 + seq![
                        GitOp::Checkout(branch),
                        GitOp::Add,
                        GitOp::Commit(commit_subject@),
                        GitOp::Push(branch),
                    ] && log1 == log0 + seq![
                        PrintEvent::Line(committing_text()),
                        PrintEvent::Line(committed_text()),
                        PrintEvent::Line(pushing_text()),
                    ],
                    _ => false,
                }
            }),
    {
        let ghost ops0 = old(self).git.unwrap().log();
        let ghost log0 = old(self).printer.log();
        self.printer.println("Adding and committing your new idea..");
        let branch_name = match self.fh.config_read(ConfigFile::Branch) {
            Ok(b) => b,
            Err(_) => unreached(),
        };
        let mut git = match self.git.take() {
            Some(g) => g,
            None => unreached(),
        };
        if git.checkout_branch(branch_name.as_str()).is_err() {
            self.git = Some(git);
            proof {
                assert(final(self).git.unwrap().log() =~= ops0 + seq![GitOp::Checkout(branch_name@)]);
                assert(self.printer.log() =~= log0 + seq![PrintEvent::Line(committing_text())]);
            }
            return Err(EurekaError::Fatal(FatalError::CheckoutFailed));
        }
        if git.add().is_err() {
            self.git = Some(git);
            proof {
                assert(final(self).git.unwrap().log() =~= ops0 + seq![
                    GitOp::Checkout(branch_name@),
                    GitOp::Add,
                ]);
                assert(self.printer.log() =~= log0 + seq![PrintEvent::Line(committing_text())]);
            }
            return Err(EurekaError::Fatal(FatalError::StageFailed));
        }
        if git.commit(commit_subject).is_err() {
            self.git = Some(git);
            proof {
                assert(final(self).git.unwrap().log() =~= ops0 + seq![
                    GitOp::Checkout(branch_name@),
                    GitOp::Add,
                    GitOp::Commit(commit_subject@),
                ]);
                assert(self.printer.log() =~= log0 + seq![PrintEvent::Line(committing_text())]);
            }
            return Err(EurekaError::Fatal(FatalError::CommitFailed));
        }
        self.printer.println("Added and committed!");
        self.printer.println("Pushing your new idea..");
        if git.push(branch_name.as_str()).is_err() {
            self.git = Some(git);
            proof {
                assert(final(self).git.unwrap().log() =~= ops0 + seq![
                    GitOp::Checkout(branch_name@),
                    GitOp::Add,
                    GitOp::Commit(commit_subject@),
                    GitOp::Push(branch_name@),
                ]);
                assert(self.printer.log() =~= log0 + seq![
                    PrintEvent::Line(committing_text()),
                    PrintEvent::Line(committed_text()),
                    PrintEvent::Line(pushing_text()),
                ]);
            }
            return Err(EurekaError::Fatal(FatalError::PushFailed));
        }
        self.printer.println("Pushed!");
        self.git = Some(git);
        proof {
            assert(final(self).git.unwrap().log() =~= ops0 + seq![
                GitOp::Checkout(branch_name@),
                GitOp::Add,
                GitOp::Commit(commit_subject@),
                GitOp::Push(branch_name@),
            ]);
            assert(self.printer.log() =~= log0 + seq![
                PrintEvent::Line(committing_text()),
                PrintEvent::Line(committed_text()),
                PrintEvent::Line(pushing_text()),
                PrintEvent::Line(pushed_text()),
            ]);
        }
        Ok(())
    }

    /// Asks for the repository path until a non-empty line arrives, then
    /// stores it. Empty input is re-prompted without bound, so the input
    /// stream must eventually hold a non-empty line.
    pub fn setup_repo_path(&mut self) -> (r: Result<(), EurekaError>)
        requires
            has_nonempty_line(old(self).reader.pending()),
        ensures
            Self::dir_unchanged(*old(self), *final(self)),
            Self::opener_unchanged(*old(self), *final(self)),
            Self::git_unchanged(*old(self), *final(self)),
            final(self).fh.stored(ConfigFile::Branch) == old(self).fh.stored(ConfigFile::Branch),
            ({
                let lines = old(self).reader.pending();
                let k = prompts_needed(lines);
                &&& final(self).reader.pending() == lines.skip(k as int)
                &&& final(self).printer.log() == old(self).printer.log() + header_run(
                    repo_prompt_text(),
                    k,
                )
                &&& (match r {
                    Ok(()) => final(self).fh.stored(ConfigFile::Repo) == Some(
                        first_nonempty_line(lines),
                    ),
                    Err(e) => e == EurekaError::Recoverable && final(self).fh.stored(
                        ConfigFile::Repo,
                    ) == old(self).fh.stored(ConfigFile::Repo),
                })
            }),
    {
        let ghost pre = *old(self);
        let ghost lines = pre.reader.pending();
        let ghost k = prompts_needed(lines);
        proof {
            crate::reader::lemma_prompts_needed(lines);
        }
        let mut input_repo_path = String::new();
        let ghost mut count: int = 0;
        while input_repo_path.as_str().is_empty()
            invariant
                has_nonempty_line(lines),
                1 <= k <= lines.len(),
                k == prompts_needed(lines),
                first_nonempty_line(lines).len() > 0,
                forall|j: int| 0 <= j < k - 1 ==> lines[j].len() == 0,
                0 <= count <= k,
                self.reader.pending() == lines.skip(count),
                self.printer.log() == pre.printer.log() + header_run(
                    repo_prompt_text(),
                    count as nat,
                ),
                input_repo_path@.len() == 0 ==> count < k,
                input_repo_path@.len() > 0 ==> count == k && input_repo_path@
                    == first_nonempty_line(lines),
                forall|f: ConfigFile| self.fh.stored(f) == pre.fh.stored(f),
                self.fh.has_config_dir() == pre.fh.has_config_dir(),
                self.program_opener.opened() == pre.program_opener.opened(),
                self.git == pre.git,
            decreases k - count,
        {
            self.printer.input_header("Absolute path to your idea repo");
            let ghost mid_pending = self.reader.pending();
            input_repo_path = self.reader.read_input();
            proof {
                assert(mid_pending.len() == lines.len() - count);
                assert(mid_pending[0] == lines[count]);
                assert(mid_pending.skip(1) =~= lines.skip(count + 1));
                assert(header_run(repo_prompt_text(), count as nat).push(
                    PrintEvent::Header(repo_prompt_text()),
                ) =~= header_run(repo_prompt_text(), (count + 1) as nat));
                assert(pre.printer.log() + header_run(repo_prompt_text(), count as nat)
                    + seq![PrintEvent::Header(repo_prompt_text())] =~= pre.printer.log()
                    + header_run(repo_prompt_text(), (count + 1) as nat));
                assert(self.printer.log() =~= pre.printer.log() + header_run(
                    repo_prompt_text(),
                    (count + 1) as nat,
                ));
                count = count + 1;
                if input_repo_path@.len() == 0 {
                    assert(lines[count - 1].len() == 0);
                    assert(count - 1 != k - 1);
                }
                if input_repo_path@.len() > 0 {
                    assert(count - 1 >= k - 1);
                }
            }
        }
        match self.fh.config_write(ConfigFile::Repo, input_repo_path) {
            Ok(_) => Ok(()),
            Err(_) => Err(EurekaError::Recoverable),
        }
    }

    /// Asks once for the branch name and stores the answer, substituting
    /// `master` for an empty line.
    pub fn setup_branch_name(&mut self) -> (r: Result<(), EurekaError>)
        ensures
            Self::dir_unchanged(*old(self), *final(self)),
            Self::opener_unchanged(*old(self), *final(self)),
            Self::git_unchanged(*old(self), *final(self)),
            final(self).fh.stored(ConfigFile::Repo) == old(self).fh.stored(ConfigFile::Repo),
            final(self).reader.pending() == remaining_after(old(self).reader.pending()),
            final(self).printer.log() == old(self).printer.log().push(
                PrintEvent::Header(branch_prompt_text()),
            ),
            ({
                let chosen = branch_choice(next_line(old(self).reader.pending()));
                match r {
                    Ok(()) => final(self).fh.stored(ConfigFile::Branch) == Some(chosen),
                    Err(e) => e == EurekaError::Recoverable && final(self).fh.stored(
                        ConfigFile::Branch,
                    ) == old(self).fh.stored(ConfigFile::Branch),
                }
            }),
    {
        self.printer.input_header("Name of branch (default: master)");
        let mut branch_name = self.reader.read_input();
        if branch_name.as_str().is_empty() {
            branch_name = "master".to_owned();
        }
        match self.fh.config_write(ConfigFile::Branch, branch_name) {
            Ok(_) => Ok(()),
            Err(_) => Err(EurekaError::Recoverable),
        }
    }

    /// What the clearing mode leaves behind: each requested key is either
    /// properly deleted or, when its removal could not run or did not
    /// succeed, untouched; a failure at the repository key stops the branch
    /// key from being processed at all; nothing else is touched.
    pub open spec fn clear_post(
        pre: Self,
        post: Self,
        opts: EurekaOptions,
        r: Result<(), EurekaError>,
    ) -> bool {
        let r0 = pre.fh.stored(ConfigFile::Repo);
        let r1 = post.fh.stored(ConfigFile::Repo);
        let b0 = pre.fh.stored(ConfigFile::Branch);
        let b1 = post.fh.stored(ConfigFile::Branch);
        let repo_done = !opts.clear_repo || (r0 is Some && r1 is None);
        let branch_done = !opts.clear_branch || (b0 is Some && b1 is None);
        &&& Self::dir_unchanged(pre, post)
        &&& Self::log_unchanged(pre, post)
        &&& Self::input_unchanged(pre, post)
        &&& Self::opener_unchanged(pre, post)
        &&& Self::git_unchanged(pre, post)
        &&& (if opts.clear_repo {
            clear_key_post(r0, r1)
        } else {
            r1 == r0
        })
        &&& (!repo_done ==> b1 == b0)
        &&& (repo_done ==> (if opts.clear_branch {
            clear_key_post(b0, b1)
        } else {
            b1 == b0
        }))
        &&& r == (if repo_done && branch_done {
            Ok::<(), EurekaError>(())
        } else {
            Err::<(), EurekaError>(EurekaError::Recoverable)
        })
    }

    /// The launches recorded once the optional `view` step has run: when it
    /// applies, it opens the pager on the idea file.
    pub open spec fn opened_after_view(pre: Self, opts: EurekaOptions) -> Seq<OpenEvent> {
        if opts.view && pre.fh.stored(ConfigFile::Repo) is Some {
            pre.program_opener.opened().push(
                OpenEvent::Pager(readme_path(pre.fh.stored(ConfigFile::Repo).unwrap())),
            )
        } else {
            pre.program_opener.opened()
        }
    }

    /// What the first-time setup flow leaves behind, given the launches
    /// `opened0` recorded before it started: the backing location exists (or
    /// its creation failed and nothing else ran), the banner was printed,
    /// each missing key was prompted for and written, and a write failure
    /// aborted the remaining steps.
    pub open spec fn setup_post(
        pre: Self,
        post: Self,
        r: Result<(), EurekaError>,
        opened0: Seq<OpenEvent>,
    ) -> bool {
        let r0 = pre.fh.stored(ConfigFile::Repo);
        let b0 = pre.fh.stored(ConfigFile::Branch);
        let lines = pre.reader.pending();
        let log0 = pre.printer.log();
        let repo_missing = r0 is None;
        let branch_missing = b0 is None;
        let k = prompts_needed(lines);
        let repo_headers = if repo_missing {
            header_run(repo_prompt_text(), k)
        } else {
            Seq::<PrintEvent>::empty()
        };
        let lines1 = if repo_missing {
            lines.skip(k as int)
        } else {
            lines
        };
        let repo_after = if repo_missing {
            Some(first_nonempty_line(lines))
        } else {
            r0
        };
        &&& Self::git_unchanged(pre, post)
        &&& post.program_opener.opened() == opened0
        &&& if !pre.fh.has_config_dir() && !post.fh.has_config_dir() {
            // creating the backing location failed before anything else ran
            &&& r == Err::<(), EurekaError>(EurekaError::Recoverable)
            &&& Self::keys_unchanged(pre, post)
            &&& Self::log_unchanged(pre, post)
            &&& Self::input_unchanged(pre, post)
        } else {
            &&& post.fh.has_config_dir()
            &&& ({
                // the repository-path write failed
                ||| (repo_missing && r == Err::<(), EurekaError>(EurekaError::Recoverable)
                    && post.fh.stored(ConfigFile::Repo) == r0 && post.fh.stored(ConfigFile::Branch)
                    == b0 && post.printer.log() == log0 + seq![PrintEvent::Banner] + repo_headers
                    && post.reader.pending() == lines1)
                // the branch-name write failed
                ||| (branch_missing && r == Err::<(), EurekaError>(EurekaError::Recoverable)
                    && post.fh.stored(ConfigFile::Repo) == repo_after && post.fh.stored(
                    ConfigFile::Branch,
                ) == b0 && post.printer.log() == log0 + seq![PrintEvent::Banner] + repo_headers
                    + seq![PrintEvent::Header(branch_prompt_text())] && post.reader.pending()
                    == remaining_after(lines1))
                // every needed step succeeded
                ||| (r == Ok::<(), EurekaError>(()) && post.fh.stored(ConfigFile::Repo)
                    == repo_after && post.fh.stored(ConfigFile::Branch) == (if branch_missing {
                    Some(branch_choice(next_line(lines1)))
                } else {
                    b0
                }) && post.printer.log() == log0 + seq![PrintEvent::Banner] + repo_headers + (
                if branch_missing {
                    seq![PrintEvent::Header(branch_prompt_text())]
                } else {
                    Seq::<PrintEvent>::empty()
                }) + seq![PrintEvent::Plain(setup_complete_text())] && post.reader.pending() == (
                if branch_missing {
                    remaining_after(lines1)
                } else {
                    lines1
                }))
            })
        }
    }

    /// What the idea-capture flow leaves behind, given the launches
    /// `opened0` recorded before it started: one summary line was read, the
    /// editor was opened on the idea file, a fresh git session was bound to
    /// the repository path, and the synchronization sequence ran exactly as
    /// far as its first failure.
    pub open spec fn capture_post(
        pre: Self,
        post: Self,
        r: Result<(), EurekaError>,
        opened0: Seq<OpenEvent>,
    ) -> bool {
        let repo = pre.fh.stored(ConfigFile::Repo).unwrap();
        let branch = pre.fh.stored(ConfigFile::Branch).unwrap();
        let summary = next_line(pre.reader.pending());
        let log0 = pre.printer.log();
        &&& Self::store_unchanged(pre, post)
        &&& post.reader.pending() == remaining_after(pre.reader.pending())
        &&& post.program_opener.opened() == opened0.push(OpenEvent::Editor(readme_path(repo)))
        &&& post.git is Some
        &&& post.git.unwrap().repo_path() == repo
        &&& (match r {
            Ok(()) => post.git.unwrap().log() == seq![
                GitOp::Checkout(branch),
                GitOp::Add,
                GitOp::Commit(summary),
                GitOp::Push(branch),
            ] && post.printer.log() == log0 + seq![
                PrintEvent::Header(idea_prompt_text()),
                PrintEvent::Line(committing_text()),
                PrintEvent::Line(committed_text()),
                PrintEvent::Line(pushing_text()),
                PrintEvent::Line(pushed_text()),
            ],
            Err(EurekaError::Fatal(FatalError::EditorFailed)) => post.git.unwrap().log()
                == Seq::<GitOp>::empty() && post.printer.log() == log0 + seq![
                PrintEvent::Header(idea_prompt_text()),
            ],
            Err(EurekaError::Fatal(FatalError::CheckoutFailed)) => post.git.unwrap().log()
                == seq![GitOp::Checkout(branch)] && post.printer.log() == log0 + seq![
                PrintEvent::Header(idea_prompt_text()),
                PrintEvent::Line(committing_text()),
            ],
            Err(EurekaError::Fatal(FatalError::StageFailed)) => post.git.unwrap().log() == seq![
                GitOp::Checkout(branch),
                GitOp::Add,
            ] && post.printer.log() == log0 + seq![
                PrintEvent::Header(idea_prompt_text()),
                PrintEvent::Line(committing_text()),
            ],
            Err(EurekaError::Fatal(FatalError::CommitFailed)) => post.git.unwrap().log() == seq![
                GitOp::Checkout(branch),
                GitOp::Add,
                GitOp::Commit(summary),
            ] && post.printer.log() == log0 + seq![
                PrintEvent::Header(idea_prompt_text()),
                PrintEvent::Line(committing_text()),
            ],
            Err(EurekaError::Fatal(FatalError::PushFailed)) => post.git.unwrap().log() == seq![
                GitOp::Checkout(branch),
                GitOp::Add,
                GitOp::Commit(summary),
                GitOp::Push(branch),
            ] && post.printer.log() == log0 + seq![
                PrintEvent::Header(idea_prompt_text()),
                PrintEvent::Line(committing_text()),
                PrintEvent::Line(committed_text()),
                PrintEvent::Line(pushing_text()),
            ],
            _ => false,
        })
    }

    /// The full contract of one `run` call, by strict precedence: the clear
    /// flags short-circuit everything; `view` runs next and stops the run
    /// only by failing; then the derived completeness of the config decides
    /// between first-time setup and idea capture.
    pub open spec fn dispatch_post(
        pre: Self,
        post: Self,
        opts: EurekaOptions,
        r: Result<(), EurekaError>,
    ) -> bool {
        if opts.clear_repo || opts.clear_branch {
            Self::clear_post(pre, post, opts, r)
        } else if opts.view && pre.fh.stored(ConfigFile::Repo) is None {
            // viewing without a configured repository path fails before
            // anything is launched
            &&& r == Err::<(), EurekaError>(EurekaError::Recoverable)
            &&& Self::store_unchanged(pre, post)
            &&& Self::log_unchanged(pre, post)
            &&& Self::input_unchanged(pre, post)
            &&& Self::opener_unchanged(pre, post)
            &&& Self::git_unchanged(pre, post)
        } else {
            let opened0 = Self::opened_after_view(pre, opts);
            // the pager was launched but reported a failure
            ||| (opts.view && r == Err::<(), EurekaError>(EurekaError::Recoverable)
                && post.program_opener.opened() == opened0 && Self::store_unchanged(pre, post)
                && Self::log_unchanged(pre, post) && Self::input_unchanged(pre, post)
                && Self::git_unchanged(pre, post))
            // normal operation: setup when incomplete, capture when complete
            ||| (if pre.config_complete() {
                Self::capture_post(pre, post, r, opened0)
            } else {
                Self::setup_post(pre, post, r, opened0)
            })
        }
    }

    /// The idea-capture flow: prompt for a summary, open the idea file in
    /// the editor, and on editor success synchronize via git. An editor
    /// failure is fatal and stops the flow before any git operation.
    pub fn ask_for_idea(&mut self) -> (r: Result<(), EurekaError>)
        requires
            old(self).config_complete(),
        ensures
            Self::capture_post(*old(self), *final(self), r, old(self).program_opener.opened()),
    {
        let ghost log0 = old(self).printer.log();
        let ghost br = old(self).fh.stored(ConfigFile::Branch).unwrap();
        self.printer.input_header(">> Idea summary");
        let idea_summary = self.reader.read_input();
        let repo_path = match self.fh.config_read(ConfigFile::Repo) {
            Ok(p) => p,
            Err(_) => unreached(),
        };
        let readme_file = repo_path.concat("/README.md");
        self.init_git();
        match self.program_opener.open_editor(readme_file.as_str()) {
            Ok(_) => {
                let r = self.git_add_commit_push(idea_summary);
                proof {
                    assert(Seq::<GitOp>::empty() + seq![GitOp::Checkout(br)] =~= seq![
                        GitOp::Checkout(br),
                    ]);
                    assert(Seq::<GitOp>::empty() + seq![GitOp::Checkout(br), GitOp::Add] =~= seq![
                        GitOp::Checkout(br),
                        GitOp::Add,
                    ]);
                    assert(Seq::<GitOp>::empty() + seq![
                        GitOp::Checkout(br),
                        GitOp::Add,
                        GitOp::Commit(idea_summary@),
                    ] =~= seq![GitOp::Checkout(br), GitOp::Add, GitOp::Commit(idea_summary@)]);
                    assert(Seq::<GitOp>::empty() + seq![
                        GitOp::Checkout(br),
                        GitOp::Add,
                        GitOp::Commit(idea_summary@),
                        GitOp::Push(br),
                    ] =~= seq![
                        GitOp::Checkout(br),
                        GitOp::Add,
                        GitOp::Commit(idea_summary@),
                        GitOp::Push(br),
                    ]);
                    assert(log0.push(PrintEvent::Header(idea_prompt_text())) + seq![
                        PrintEvent::Line(committing_text()),
                    ] =~= log0 + seq![
                        PrintEvent::Header(idea_prompt_text()),
                        PrintEvent::Line(committing_text()),
                    ]);
                    assert(log0.push(PrintEvent::Header(idea_prompt_text())) + seq![
                        PrintEvent::Line(committing_text()),
                        PrintEvent::Line(committed_text()),
                        PrintEvent::Line(pushing_text()),
                    ] =~= log0 + seq![
                        PrintEvent::Header(idea_prompt_text()),
                        PrintEvent::Line(committing_text()),
                        PrintEvent::Line(committed_text()),
                        PrintEvent::Line(pushing_text()),
                    ]);
                    assert(log0.push(PrintEvent::Header(idea_prompt_text())) + seq![
                        PrintEvent::Line(committing_text()),
                        PrintEvent::Line(committed_text()),
                        PrintEvent::Line(pushing_text()),
                        PrintEvent::Line(pushed_text()),
                    ] =~= log0 + seq![
                        PrintEvent::Header(idea_prompt_text()),
                        PrintEvent::Line(committing_text()),
                        PrintEvent::Line(committed_text()),
                        PrintEvent::Line(pushing_text()),
                        PrintEvent::Line(pushed_text()),
                    ]);
                }
                r
            },
            Err(_) => {
                proof {
                    assert(self.printer.log() =~= log0 + seq![
                        PrintEvent::Header(idea_prompt_text()),
                    ]);
                }
                Err(EurekaError::Fatal(FatalError::EditorFailed))
            },
        }
    }

    /// One invocation of the CLI: process the clear flags (and stop), then
    /// the view flag, then run first-time setup or idea capture depending on
    /// whether the config is complete.
    ///
    /// The repository-path prompt re-asks without bound on empty input, so
    /// when normal operation will need that prompt, the input stream must
    /// eventually hold a non-empty line.
    pub fn run(&mut self, opts: EurekaOptions) -> (r: Result<(), EurekaError>)
        requires
            !opts.clear_repo && !opts.clear_branch && !opts.view && old(self).fh.stored(
                ConfigFile::Repo,
            ) is None ==> has_nonempty_line(old(self).reader.pending()),
        ensures
            Self::dispatch_post(*old(self), *final(self), opts, r),
            opts.clear_repo && old(self).fh.stored(ConfigFile::Repo) is None ==> r == Err::<
                (),
                EurekaError,
            >(EurekaError::Recoverable) && Self::keys_unchanged(*old(self), *final(self)),
            opts.clear_repo && !opts.clear_branch && r is Ok ==> old(self).fh.stored(
                ConfigFile::Repo,
            ) is Some && final(self).fh.stored(ConfigFile::Repo) is None && final(self).fh.stored(
                ConfigFile::Branch,
            ) == old(self).fh.stored(ConfigFile::Branch),
            (match r {
                Err(EurekaError::Fatal(FatalError::CommitFailed)) => final(self).git is Some && (
                forall|i: int|
                    0 <= i < final(self).git.unwrap().log().len() ==> !(final(self).git.unwrap().log()[i] is Push)),
                _ => true,
            }),
            (match r {
                Err(EurekaError::Fatal(FatalError::EditorFailed)) => final(self).git is Some
                    && final(self).git.unwrap().log() == Seq::<GitOp>::empty(),
                _ => true,
            }),
    {
        if opts.clear_repo || opts.clear_branch {
            if opts.clear_repo {
                match self.clear_repo() {
                    Ok(_) => {},
                    Err(e) => {
                        return Err(e);
                    },
                }
            }
            if opts.clear_branch {
                match self.clear_branch() {
                    Ok(_) => {},
                    Err(e) => {
                        return Err(e);
                    },
                }
            }
            return Ok(());
        }
        if opts.view {
            match self.open_idea_file() {
                Ok(_) => {},
                Err(e) => {
                    return Err(e);
                },
            }
        }
        if self.is_config_missing() {
            let ghost log0 = old(self).printer.log();
            let ghost lines = old(self).reader.pending();
            let ghost k = prompts_needed(lines);
            if !self.fh.config_dir_exists() {
                match self.fh.config_dir_create() {
                    Ok(_) => {},
                    Err(_) => {
                        return Err(EurekaError::Recoverable);
                    },
                }
            }
            self.printer.fts_banner();
            let ghost repo_was_missing = self.fh.stored(ConfigFile::Repo) is None;
            if self.fh.config_read(ConfigFile::Repo).is_err() {
                match self.setup_repo_path() {
                    Ok(_) => {},
                    Err(e) => {
                        proof {
                            assert(self.printer.log() =~= log0 + seq![PrintEvent::Banner]
                                + header_run(repo_prompt_text(), k));
                        }
                        return Err(e);
                    },
                }
            }
            let ghost log_mid = self.printer.log();
            proof {
                if repo_was_missing {
                    assert(log_mid =~= log0 + seq![PrintEvent::Banner] + header_run(
                        repo_prompt_text(),
                        k,
                    ));
                } else {
                    assert(log_mid =~= log0 + seq![PrintEvent::Banner]
                        + Seq::<PrintEvent>::empty());
                }
            }
            let ghost branch_was_missing = self.fh.stored(ConfigFile::Branch) is None;
            if self.fh.config_read(ConfigFile::Branch).is_err() {
                match self.setup_branch_name() {
                    Ok(_) => {},
                    Err(e) => {
                        proof {
                            assert(self.printer.log() =~= log_mid + seq![
                                PrintEvent::Header(branch_prompt_text()),
                            ]);
                        }
                        return Err(e);
                    },
                }
            }
            let ghost log_mid2 = self.printer.log();
            proof {
                if branch_was_missing {
                    assert(log_mid2 =~= log_mid + seq![PrintEvent::Header(branch_prompt_text())]);
                } else {
                    assert(log_mid2 == log_mid);
                    assert(log_mid2 =~= log_mid + Seq::<PrintEvent>::empty());
                }
            }
            self.printer.print("First time setup complete. Happy ideation!");
            proof {
                assert(self.printer.log() == log_mid2.push(PrintEvent::Plain(setup_complete_text())));
                assert(self.printer.log() =~= log_mid2 + seq![
                    PrintEvent::Plain(setup_complete_text()),
                ]);
                if branch_was_missing {
                    assert(self.printer.log() =~= (log_mid + seq![
                        PrintEvent::Header(branch_prompt_text()),
                    ]) + seq![PrintEvent::Plain(setup_complete_text())]);
                } else {
                    assert(self.printer.log() =~= (log_mid + Seq::<PrintEvent>::empty()) + seq![
                        PrintEvent::Plain(setup_complete_text()),
                    ]);
                }
            }
            Ok(())
        } else {
            self.ask_for_idea()
        }
    }
}

/// Clearing either key makes the configuration incomplete, whatever the
/// other key holds: completeness always requires both keys independently.
pub proof fn lemma_clearing_breaks_completeness<FH, W, R, PO, G>(post: Eureka<FH, W, R, PO, G>) where
    FH: ConfigManagement + FileManagement,
    W: Print + PrintColor,
    R: ReadInput,
    PO: ProgramOpener,
    G: GitCapability,

    requires
        post.fh.stored(ConfigFile::Repo) is None || post.fh.stored(ConfigFile::Branch) is None,
    ensures
        !post.config_complete(),
{
}

/// After a failed commit the synchronization log holds checkout, stage and
/// commit, and nothing else: in particular, no push was ever requested.
pub proof fn lemma_commit_failure_excludes_push(
    ops: Seq<GitOp>,
    branch: Seq<char>,
    summary: Seq<char>,
)
    requires
        ops == seq![GitOp::Checkout(branch), GitOp::Add, GitOp::Commit(summary)],
    ensures
        forall|i: int| 0 <= i < ops.len() ==> !(ops[i] is Push),
{
    assert forall|i: int| 0 <= i < ops.len() implies !(ops[i] is Push) by {
        assert(ops[0] == GitOp::Checkout(branch));
        assert(ops[1] == GitOp::Add);
        assert(ops[2] == GitOp::Commit(summary));
    }
}

} // verus!
