use vstd::prelude::*;

use crate::action::{description_texts, ActionDescription};

verus! {

/// The shell start-up files that are made to load Nix.
pub const PROFILE_TARGETS: [&'static str; 5] = [
    "/etc/bashrc",
    "/etc/profile.d/nix.sh",
    "/etc/zshrc",
    "/etc/bash.bashrc",
    "/etc/zsh/zshrc",
];

/// The script that sets up a shell for the Nix daemon.
pub const PROFILE_NIX_FILE: &'static str = "/nix/var/nix/profiles/default/etc/profile.d/nix-daemon.sh";

/// The owner, group and mode of the start-up files.
pub const PROFILE_OWNER: &'static str = "root";
pub const PROFILE_MODE: u32 = 0o0644;

/// Errors of the shell-profile actions.
pub enum HarmonicError {
    /// A step failed; the text says how.
    Failed(String),
    /// The task that ran a step ended without a result; the text says how.
    Join(String),
    /// Several steps failed.
    Multiple(Vec<HarmonicError>),
}

/// Adds `buf` to the end of the file at `path`, creating the file, owned
/// by `user` and `group`, with permissions `mode`, where it is missing.
pub struct CreateOrAppendFile {
    pub path: String,
    pub user: String,
    pub group: String,
    pub mode: u32,
    pub buf: String,
}

/// What `CreateOrAppendFile` did, so that it can be undone.
pub struct CreateOrAppendFileReceipt {
    pub path: String,
    pub user: String,
    pub group: String,
    pub mode: u32,
    pub buf: String,
}

pub struct ConfigureShellProfile {
    pub create_or_append_files: Vec<CreateOrAppendFile>,
}

pub struct ConfigureShellProfileReceipt {
    pub create_or_append_files: Vec<CreateOrAppendFileReceipt>,
}

impl CreateOrAppendFile {
    pub fn plan(path: String, user: String, group: String, mode: u32, buf: String) -> (r: Self)
        ensures
            r.path == path,
            r.user == user,
            r.group == group,
            r.mode == mode,
            r.buf == buf,
    {
        CreateOrAppendFile { path, user, group, mode, buf }
    }
}

/// The lines added to each start-up file.
pub open spec fn profile_buf() -> Seq<char> {
    "\n# Nix\nif [ -e '"@ + PROFILE_NIX_FILE@ + "' ]; then\n. '"@ + PROFILE_NIX_FILE@
        + "'\nfi\n# End Nix\n\n            \n"@
}

/// Whether `f` adds the Nix lines to `target`, as root, with mode 0644.
pub open spec fn is_profile_edit(f: CreateOrAppendFile, target: Seq<char>) -> bool {
    &&& f.path@ == target
    &&& f.user@ == PROFILE_OWNER@
    &&& f.group@ == PROFILE_OWNER@
    &&& f.mode == PROFILE_MODE
    &&& f.buf@ == profile_buf()
}

/// The steps that did their work, in the order given.
pub open spec fn successes<R, E>(s: Seq<Result<R, E>>) -> Seq<R>
    decreases s.len(),
{
    if s.len() == 0 {
        Seq::empty()
    } else {
        let prev = successes(s.drop_last());
        match s.last() {
            Ok(x) => prev.push(x),
            Err(_) => prev,
        }
    }
}

/// The errors of the steps that failed, in the order given.
pub open spec fn failures<R, E>(s: Seq<Result<R, E>>) -> Seq<E>
    decreases s.len(),
{
    if s.len() == 0 {
        Seq::empty()
    } else {
        let prev = failures(s.drop_last());
        match s.last() {
            Ok(_) => prev,
            Err(e) => prev.push(e),
        }
    }
}

/// The lines added to each start-up file.
fn profile_lines() -> (r: String)
    ensures
        r@ == profile_buf(),
{
    let mut buf = String::from_str("\n# Nix\nif [ -e '");
    buf.append(PROFILE_NIX_FILE);
    buf.append("' ]; then\n. '");
    buf.append(PROFILE_NIX_FILE);
    buf.append("'\nfi\n# End Nix\n\n            \n");
    buf
}

impl ConfigureShellProfile {
    /// Plans one edit per start-up file, in the order of `PROFILE_TARGETS`.
    pub fn plan() -> (r: Result<Self, HarmonicError>)
        ensures
            r matches Ok(p) && p.create_or_append_files@.len() == PROFILE_TARGETS@.len()
                && forall|i: int|
                0 <= i < PROFILE_TARGETS@.len() ==> is_profile_edit(
                    #[trigger] p.create_or_append_files@[i],
                    PROFILE_TARGETS@[i]@,
                ),
    {
        let mut create_or_append_files: Vec<CreateOrAppendFile> = Vec::new();
        let mut i: usize = 0;
        while i < PROFILE_TARGETS.len()
            invariant
                i <= PROFILE_TARGETS@.len(),
                create_or_append_files@.len() == i,
                forall|k: int|
                    0 <= k < i ==> is_profile_edit(
                        #[trigger] create_or_append_files@[k],
                        PROFILE_TARGETS@[k]@,
                    ),
            decreases PROFILE_TARGETS@.len() - i,
        {
            let target: &str = PROFILE_TARGETS[i];
            let buf = profile_lines();
            let file = CreateOrAppendFile::plan(
                String::from_str(target),
                String::from_str(PROFILE_OWNER),
                String::from_str(PROFILE_OWNER),
                PROFILE_MODE,
                buf,
            );
            create_or_append_files.push(file);
            i = i + 1;
        }
        Ok(ConfigureShellProfile { create_or_append_files })
    }

    pub fn description(&self) -> (r: Vec<ActionDescription>)
        ensures
            description_texts(r@) == seq![
                ("Configure the shell profiles"@, seq!["Update shell profiles to import Nix"@]),
            ],
    {
        let r = vec![
            ActionDescription::new(
                String::from_str("Configure the shell profiles"),
                vec![String::from_str("Update shell profiles to import Nix")],
            ),
        ];
        assert(description_texts(r@) =~= seq![
            ("Configure the shell profiles"@, seq!["Update shell profiles to import Nix"@]),
        ]) by {
            assert(r@[0].text().1 =~= seq!["Update shell profiles to import Nix"@]);
        }
        r
    }

    /// Gathers what the edits, run side by side, gave back: the receipt of
    /// every edit where all of them succeeded; else the one error, or all
    /// of them together.
    pub fn collect_execute_results(
        results: Vec<Result<CreateOrAppendFileReceipt, HarmonicError>>,
    ) -> (r: Result<ConfigureShellProfileReceipt, HarmonicError>)
        ensures
            failures(results@).len() == 0 ==> (r matches Ok(receipt)
                && receipt.create_or_append_files@ == successes(results@)),
            failures(results@).len() == 1 ==> r == Err::<ConfigureShellProfileReceipt, HarmonicError>(
                failures(results@)[0],
            ),
            failures(results@).len() > 1 ==> (r matches Err(HarmonicError::Multiple(errs))
                && errs@ == failures(results@)),
    {
        let ghost all = results@;
        let mut results = results;
        let total = results.len();
        let mut done: usize = 0;
        let mut oks: Vec<CreateOrAppendFileReceipt> = Vec::new();
        let mut errors: Vec<HarmonicError> = Vec::new();
        while done < total
            invariant
                total == all.len(),
                done <= total,
                results@ == all.skip(done as int),
                oks@ == successes(all.take(done as int)),
                errors@ == failures(all.take(done as int)),
            decreases total - done,
        {
            let result = results.remove(0);
            assert(all.take(done + 1).drop_last() =~= all.take(done as int));
            assert(all.take(done + 1).last() == result);
            assert(all.skip(done as int).remove(0) =~= all.skip(done + 1));
            match result {
                Ok(receipt) => oks.push(receipt),
                Err(e) => errors.push(e),
            }
            done = done + 1;
        }
        assert(all.take(done as int) =~= all);
        if errors.len() > 0 {
            if errors.len() == 1 {
                return Err(errors.remove(0));
            } else {
                return Err(HarmonicError::Multiple(errors));
            }
        }
        Ok(ConfigureShellProfileReceipt { create_or_append_files: oks })
    }
}

/// Every result is either a success or a failure: where no edit failed,
/// the receipt has one entry per edit that ran.
pub proof fn lemma_results_partition<R, E>(s: Seq<Result<R, E>>)
    ensures
        successes(s).len() + failures(s).len() == s.len(),
        failures(s).len() == 0 ==> successes(s).len() == s.len(),
    decreases s.len(),
{
    if s.len() > 0 {
        lemma_results_partition(s.drop_last());
    }
}

/// Gathering keeps order: the successes of two runs of results one after
/// the other are those of the first followed by those of the second, and
/// likewise the failures.
pub proof fn lemma_results_concat<R, E>(a: Seq<Result<R, E>>, b: Seq<Result<R, E>>)
    ensures
        successes(a + b) == successes(a) + successes(b),
        failures(a + b) == failures(a) + failures(b),
    decreases b.len(),
{
    if b.len() == 0 {
        assert(a + b =~= a);
        assert(successes(a) + successes(b) =~= successes(a));
        assert(failures(a) + failures(b) =~= failures(a));
    } else {
        lemma_results_concat(a, b.drop_last());
        assert((a + b).drop_last() =~= a + b.drop_last());
        assert((a + b).last() == b.last());
        match b.last() {
            Ok(x) => {
                assert(successes(a) + successes(b.drop_last()).push(x) =~= (successes(a) + successes(b.drop_last())).push(x));
            },
            Err(e) => {
                assert(failures(a) + failures(b.drop_last()).push(e) =~= (failures(a) + failures(b.drop_last())).push(e));
            },
        }
    }
}

/// Where every edit succeeded, the receipts are all of them, in the order
/// given; where every edit failed, the errors are all of them, in order.
pub proof fn lemma_results_all_alike<R, E>(s: Seq<Result<R, E>>)
    ensures
        (forall|i: int| 0 <= i < s.len() ==> #[trigger] s[i] is Ok) ==> (failures(s).len() == 0
            && successes(s).len() == s.len()
            && forall|i: int| 0 <= i < s.len() ==> s[i] == Ok::<R, E>(#[trigger] successes(s)[i])),
        (forall|i: int| 0 <= i < s.len() ==> #[trigger] s[i] is Err) ==> (successes(s).len() == 0
            && failures(s).len() == s.len()
            && forall|i: int| 0 <= i < s.len() ==> s[i] == Err::<R, E>(#[trigger] failures(s)[i])),
    decreases s.len(),
{
    if s.len() > 0 {
        let p = s.drop_last();
        lemma_results_all_alike(p);
        if forall|i: int| 0 <= i < s.len() ==> #[trigger] s[i] is Ok {
            assert(forall|i: int| 0 <= i < p.len() ==> #[trigger] p[i] is Ok) by {
                assert forall|i: int| 0 <= i < p.len() implies #[trigger] p[i] is Ok by {
                    assert(p[i] == s[i]);
                }
            }
            assert(s[s.len() - 1] is Ok);
        }
        if forall|i: int| 0 <= i < s.len() ==> #[trigger] s[i] is Err {
            assert(forall|i: int| 0 <= i < p.len() ==> #[trigger] p[i] is Err) by {
                assert forall|i: int| 0 <= i < p.len() implies #[trigger] p[i] is Err by {
                    assert(p[i] == s[i]);
                }
            }
            assert(s[s.len() - 1] is Err);
        }
    }
}

} // verus!
