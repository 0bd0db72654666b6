//! The supervisor's decisions: whether the worker in the slot must be replaced, and the
//! two-tier launch policy (the packaged binary first, then, where allowed, the script
//! under each interpreter in turn).

use vstd::prelude::*;
use crate::platform::Platform;
use crate::text::{eq_ignore_ascii_case, eq_ignoring_ascii_case, join, joined, strings_view, trim, trim_ws};

verus! {

/// What the non-blocking probe of a worker in the slot found.
#[derive(Clone, Copy, Debug, PartialEq, Eq, Structural)]
pub enum Liveness {
    Running,
    Exited,
    ProbeFailed,
}

/// Whether a worker must be launched, given the probe of the slot's worker (`None`: the
/// slot is empty). Only a worker that the probe found running is kept.
pub fn needs_restart(probe: Option<Liveness>) -> (r: bool)
    ensures
        r == (probe != Some(Liveness::Running)),
{
    match probe {
        Some(Liveness::Running) => false,
        _ => true,
    }
}

/// Whether the interpreter script may be run when the packaged binary fails: always in a
/// development build, else when the opt-in variable holds `1` or `true` (any case),
/// white space around it aside.
pub fn fallback_allowed(debug_build: bool, opt_in: Option<&str>) -> (r: bool)
    ensures
        r == (debug_build || match opt_in {
            Some(v) => trim_ws(v@) == "1"@ || eq_ignoring_ascii_case(trim_ws(v@), "true"@),
            None => false,
        }),
{
    if debug_build {
        return true;
    }
    match opt_in {
        Some(raw) => {
            let v = trim(raw);
            let one = String::from_str("1");
            let v_owned = v.to_owned();
            v_owned == one || eq_ignore_ascii_case(v, "true")
        },
        None => false,
    }
}

/// One way to start the worker: a program and its arguments.
pub struct LaunchAttempt {
    pub program: String,
    pub args: Vec<String>,
}

pub open spec fn attempt_view(a: LaunchAttempt) -> (Seq<char>, Seq<Seq<char>>) {
    (a.program@, strings_view(a.args@))
}

/// The interpreters the script is tried with, in order.
pub open spec fn interpreter_attempts(platform: Platform, script: Seq<char>) -> Seq<
    (Seq<char>, Seq<Seq<char>>),
> {
    let common = seq![("python"@, seq![script]), ("python3"@, seq![script])];
    if platform == Platform::Windows {
        common.push(("py"@, seq!["-3"@, script]))
    } else {
        common
    }
}

pub open spec fn bundled_failure(errors: Seq<Seq<char>>) -> Seq<char> {
    "failed to start bundled ASR sidecar; reinstall app. details: "@ + joined(errors, " | "@)
}

pub open spec fn fallback_failure(last: Seq<char>, errors: Seq<Seq<char>>) -> Seq<char> {
    "failed to start sidecar process ("@ + last + "); details: "@ + joined(errors, " | "@)
}

pub open spec fn fails_with(r: LaunchStep, msg: Seq<char>) -> bool {
    match r {
        LaunchStep::Fail(m) => m@ == msg,
        _ => false,
    }
}

pub open spec fn spawns(r: LaunchStep, a: (Seq<char>, Seq<Seq<char>>)) -> bool {
    match r {
        LaunchStep::Spawn(x) => attempt_view(x) == a,
        _ => false,
    }
}

/// What the launcher asks for next.
pub enum LaunchStep {
    /// Spawn this attempt, then report `spawned` or `spawn_failed`.
    Spawn(LaunchAttempt),
    /// Look for the interpreter script, then report `script_located`.
    LocateScript,
    /// Give up with this message.
    Fail(String),
}

#[derive(Clone, Copy, Debug, PartialEq, Eq, Structural)]
pub enum LaunchStage {
    /// Trying the packaged binary.
    Bundled,
    /// Trying the script under the interpreter at this position.
    Interpreter(usize),
    /// Nothing more to try.
    Over,
}

/// The state of one launch: what is being tried, and every error so far.
pub struct Launcher {
    platform: Platform,
    fallback: bool,
    stage: LaunchStage,
    errors: Vec<String>,
    attempts: Vec<LaunchAttempt>,
}

impl Launcher {
    pub closed spec fn stage(&self) -> LaunchStage {
        self.stage
    }

    /// The errors met so far, oldest first.
    pub closed spec fn errors(&self) -> Seq<Seq<char>> {
        strings_view(self.errors@)
    }

    pub closed spec fn fallback(&self) -> bool {
        self.fallback
    }

    pub closed spec fn platform(&self) -> Platform {
        self.platform
    }

    /// The interpreter attempts, once the script has been found.
    pub closed spec fn attempts(&self) -> Seq<(Seq<char>, Seq<Seq<char>>)> {
        self.attempts@.map_values(|a: LaunchAttempt| attempt_view(a))
    }

    pub closed spec fn wf(&self) -> bool {
        match self.stage {
            LaunchStage::Interpreter(i) => i < self.attempts.len(),
            _ => true,
        }
    }

    /// A launch that starts with the packaged binary; the caller looks for it first and
    /// reports with `binary_located`.
    pub fn new(platform: Platform, fallback: bool) -> (r: Self)
        ensures
            r.wf(),
            r.stage() == LaunchStage::Bundled,
            r.errors() == Seq::<Seq<char>>::empty(),
            r.fallback() == fallback,
            r.platform() == platform,
    {
        let r = Launcher { platform, fallback, stage: LaunchStage::Bundled, errors: Vec::new(), attempts: Vec::new() };
        assert(r.errors() =~= Seq::<Seq<char>>::empty());
        r
    }

    /// The packaged binary failed (`error`): the script next where allowed, else the end.
    fn bundled_failed(&mut self, error: String) -> (r: LaunchStep)
        requires
            old(self).wf(),
            old(self).stage() == LaunchStage::Bundled,
        ensures
            final(self).wf(),
            final(self).errors() == old(self).errors().push(error@),
            final(self).fallback() == old(self).fallback(),
            final(self).platform() == old(self).platform(),
            final(self).attempts() == old(self).attempts(),
            old(self).fallback() ==> r is LocateScript && final(self).stage() == LaunchStage::Bundled,
            !old(self).fallback() ==> final(self).stage() == LaunchStage::Over && fails_with(r, bundled_failure(final(self).errors())),
    {
        let ghost e = error@;
        self.errors.push(error);
        assert(self.errors() =~= old(self).errors().push(e));
        if self.fallback {
            LaunchStep::LocateScript
        } else {
            self.stage = LaunchStage::Over;
            let mut m = String::from_str("failed to start bundled ASR sidecar; reinstall app. details: ");
            m.append(join(&self.errors, " | ").as_str());
            LaunchStep::Fail(m)
        }
    }

    /// The result of looking for the packaged binary: spawn it where found.
    pub fn binary_located(&mut self, found: Result<String, String>) -> (r: LaunchStep)
        requires
            old(self).wf(),
            old(self).stage() == LaunchStage::Bundled,
        ensures
            final(self).wf(),
            final(self).fallback() == old(self).fallback(),
            final(self).platform() == old(self).platform(),
            match found {
                Ok(path) => final(self).errors() == old(self).errors() && final(self).stage()
                    == LaunchStage::Bundled && spawns(r, (path@, Seq::<Seq<char>>::empty())),
                Err(e) => final(self).errors() == old(self).errors().push(e@) && (if old(self).fallback() {
                    r is LocateScript && final(self).stage() == LaunchStage::Bundled
                } else {
                    final(self).stage() == LaunchStage::Over && fails_with(r, bundled_failure(final(self).errors()))
                }),
            },
    {
        match found {
            Ok(path) => {
                let a = LaunchAttempt { program: path, args: Vec::new() };
                assert(strings_view(a.args@) =~= Seq::<Seq<char>>::empty());
                LaunchStep::Spawn(a)
            },
            Err(e) => self.bundled_failed(e),
        }
    }

    /// The result of looking for the interpreter script: its absence ends the launch with
    /// that error; else it is spawned under the first interpreter.
    pub fn script_located(&mut self, found: Result<String, String>) -> (r: LaunchStep)
        requires
            old(self).wf(),
            old(self).stage() == LaunchStage::Bundled,
            old(self).fallback(),
        ensures
            final(self).wf(),
            final(self).errors() == old(self).errors(),
            final(self).fallback() == old(self).fallback(),
            final(self).platform() == old(self).platform(),
            match found {
                Ok(script) => final(self).stage() == LaunchStage::Interpreter(0) && final(self).attempts()
                    == interpreter_attempts(old(self).platform(), script@) && spawns(r, interpreter_attempts(old(self).platform(), script@)[0]),
                Err(e) => final(self).stage() == LaunchStage::Over && fails_with(r, e@),
            },
    {
        match found {
            Err(e) => {
                self.stage = LaunchStage::Over;
                LaunchStep::Fail(e)
            },
            Ok(script) => {
                let mut attempts: Vec<LaunchAttempt> = Vec::new();
                attempts.push(LaunchAttempt { program: String::from_str("python"), args: vec![script.clone()] });
                attempts.push(LaunchAttempt { program: String::from_str("python3"), args: vec![script.clone()] });
                if self.platform == Platform::Windows {
                    attempts.push(LaunchAttempt { program: String::from_str("py"), args: vec![String::from_str("-3"), script.clone()] });
                }
                let first = LaunchAttempt { program: String::from_str("python"), args: vec![script.clone()] };
                proof {
                    assert(strings_view(attempts@[0].args@) =~= seq![script@]);
                    assert(strings_view(attempts@[1].args@) =~= seq![script@]);
                    if self.platform == Platform::Windows {
                        assert(strings_view(attempts@[2].args@) =~= seq!["-3"@, script@]);
                    }
                    assert(strings_view(first.args@) =~= seq![script@]);
                }
                self.attempts = attempts;
                self.stage = LaunchStage::Interpreter(0);
                assert(self.attempts() =~= interpreter_attempts(self.platform, script@));
                LaunchStep::Spawn(first)
            },
        }
    }

    /// The last spawn failed with `error`: the next interpreter if any is left, the
    /// script where the packaged binary failed and fallback is allowed, else the end.
    pub fn spawn_failed(&mut self, error: String) -> (r: LaunchStep)
        requires
            old(self).wf(),
            old(self).stage() != LaunchStage::Over,
        ensures
            final(self).wf(),
            final(self).errors() == old(self).errors().push(error@),
            final(self).fallback() == old(self).fallback(),
            final(self).platform() == old(self).platform(),
            final(self).attempts() == old(self).attempts(),
            match old(self).stage() {
                LaunchStage::Bundled => if old(self).fallback() {
                    r is LocateScript && final(self).stage() == LaunchStage::Bundled
                } else {
                    final(self).stage() == LaunchStage::Over && fails_with(r, bundled_failure(final(self).errors()))
                },
                LaunchStage::Interpreter(i) => if i + 1 < old(self).attempts().len() {
                    final(self).stage() == LaunchStage::Interpreter((i + 1) as usize) && spawns(r, old(self).attempts()[i + 1])
                } else {
                    final(self).stage() == LaunchStage::Over && fails_with(r, fallback_failure(error@, final(self).errors()))
                },
                LaunchStage::Over => false,
            },
    {
        match self.stage {
            LaunchStage::Bundled => self.bundled_failed(error),
            LaunchStage::Interpreter(i) => {
                let ghost e = error@;
                let mut m = String::from_str("failed to start sidecar process (");
                m.append(error.as_str());
                self.errors.push(error);
                assert(self.errors() =~= old(self).errors().push(e));
                if i + 1 < self.attempts.len() {
                    self.stage = LaunchStage::Interpreter(i + 1);
                    let a = &self.attempts[i + 1];
                    let next = LaunchAttempt { program: a.program.clone(), args: clone_strings(&a.args) };
                    assert(attempt_view(next) == self.attempts()[i + 1]);
                    LaunchStep::Spawn(next)
                } else {
                    self.stage = LaunchStage::Over;
                    m.append("); details: ");
                    m.append(join(&self.errors, " | ").as_str());
                    LaunchStep::Fail(m)
                }
            },
            LaunchStage::Over => LaunchStep::Fail(String::new()),
        }
    }
}

fn clone_strings(v: &Vec<String>) -> (r: Vec<String>)
    ensures
        strings_view(r@) == strings_view(v@),
{
    let mut r: Vec<String> = Vec::new();
    let mut i: usize = 0;
    while i < v.len()
        invariant
            i <= v.len(),
            strings_view(r@) == strings_view(v@.take(i as int)),
        decreases v.len() - i,
    {
        let ghost prev = r@;
        let c = v[i].clone();
        r.push(c);
        assert(strings_view(r@) =~= strings_view(prev).push(v@[i as int]@));
        assert(strings_view(v@.take(i + 1)) =~= strings_view(v@.take(i as int)).push(v@[i as int]@));
        i = i + 1;
    }
    assert(v@.take(v.len() as int) =~= v@);
    r
}

} // verus!
