//! Reading agent skills: recognising a skill reference that is a bare name.
use vstd::prelude::*;
use vstd::string::*;

verus! {

/// The terminal session whose skills an executor reads.
#[derive(Debug, Clone, PartialEq, Eq)]
pub enum SkillSession {
    /// A session on this machine.
    Local,
    /// A remote session: `host_id` names the remote host once its server is connected, and is
    /// `None` while the session still waits for it.
    Remote { host_id: Option<String> },
}

/// The host whose skill catalogue a session reads.
#[derive(Debug, Clone, PartialEq, Eq)]
pub enum SkillHost {
    /// This machine.
    Local,
    /// The connected remote host with this id.
    Remote(String),
    /// A remote session whose host is not connected yet: no catalogue can be read.
    Unavailable,
}

/// The host of a session; see [`SkillHost`].
pub open spec fn host_of(session: SkillSession) -> SkillHost {
    match session {
        SkillSession::Local => SkillHost::Local,
        SkillSession::Remote { host_id: Some(h) } => SkillHost::Remote(h),
        SkillSession::Remote { host_id: None } => SkillHost::Unavailable,
    }
}

/// Executes `read_skill` actions for one terminal session: skill references are resolved on
/// that session's host.
#[derive(Debug, Clone, PartialEq, Eq)]
pub struct ReadSkillExecutor {
    session: SkillSession,
}

impl ReadSkillExecutor {
    /// The session the executor is bound to.
    pub closed spec fn session_spec(&self) -> SkillSession {
        self.session
    }

    /// An executor bound to `session`.
    pub fn new(session: SkillSession) -> (r: Self)
        ensures
            r.session_spec() == session,
    {
        ReadSkillExecutor { session }
    }

    /// The session the executor is bound to.
    pub fn session(&self) -> (r: &SkillSession)
        ensures
            *r == self.session_spec(),
    {
        &self.session
    }

    /// The host whose skills this executor reads: that of its session.
    pub fn skill_host(&self) -> (r: SkillHost)
        ensures
            r == host_of(self.session_spec()),
    {
        match &self.session {
            SkillSession::Local => SkillHost::Local,
            SkillSession::Remote { host_id: Some(h) } => SkillHost::Remote(h.clone()),
            SkillSession::Remote { host_id: None } => SkillHost::Unavailable,
        }
    }

    /// Skills are read without asking.
    pub fn should_autoexecute(&self) -> (r: bool)
        ensures
            r,
    {
        true
    }

    /// What a `read_skill` action does, given what the skill catalogue of
    /// [`ReadSkillExecutor::skill_host`] answered: `by_reference` is the skill the reference
    /// names there, `by_name` the skill whose name is the reference read as a name (see
    /// [`name_candidate`]), and `skill_file_shaped` whether the reference is a path shaped like
    /// a skill file. In that order the first that applies is read; a path of skill-file shape
    /// is read from disk; anything else fails with "Skill not found". A bundled skill cannot be
    /// read on a remote session whose host is not connected.
    pub fn plan_read_skill(
        &self,
        reference: &SkillRef,
        by_reference: Option<SkillHit>,
        by_name: Option<SkillHit>,
        skill_file_shaped: bool,
    ) -> (r: ReadSkillPlan)
        ensures
            is_read_skill_plan(r, self.session_spec(), *reference, by_reference, by_name, skill_file_shaped),
    {
        if let SkillRef::BundledSkillId(_) = reference {
            if let SkillSession::Remote { host_id: None } = &self.session {
                let message = String::from_str("Bundled skills are not available on this remote session");
                proof {
                    reveal_strlit("Bundled skills are not available on this remote session");
                }
                return ReadSkillPlan::Fail(message);
            }
        }
        if let Some(hit) = by_reference {
            return ReadSkillPlan::Read(hit);
        }
        if let SkillRef::Path(p) = reference {
            if name_candidate(p.as_str()).is_some() {
                if let Some(hit) = by_name {
                    return ReadSkillPlan::Read(hit);
                }
            }
            if skill_file_shaped {
                return ReadSkillPlan::ReadFromDisk(p.clone());
            }
        }
        ReadSkillPlan::Fail(not_found(reference))
    }

    /// The answer once a skill file read from disk (see [`ReadSkillPlan::ReadFromDisk`]) was
    /// parsed: the skill, or "Skill not found", the reference and, in brackets, why the
    /// parse failed.
    pub fn finish_disk_read(reference: &SkillRef, parsed: Result<SkillHit, String>) -> (r: Result<
        SkillHit,
        String,
    >)
        ensures
            match parsed {
                Ok(hit) => r == Ok::<SkillHit, String>(hit),
                Err(err) => r matches Err(m) && m@ == not_found_message(*reference) + " ("@ + err@ + ")"@,
            },
    {
        match parsed {
            Ok(hit) => Ok(hit),
            Err(err) => {
                let mut message = not_found(reference);
                message.append(" (");
                message.append(err.as_str());
                message.append(")");
                proof {
                    reveal_strlit(" (");
                    reveal_strlit(")");
                }
                Err(message)
            },
        }
    }
}

/// The text that the `Debug` impl of `str` writes for a string: the string in double quotes,
/// with its characters escaped as `char::escape_debug` does.
pub uninterp spec fn debug_str_text(s: Seq<char>) -> Seq<char>;

/// Formats a string with the `Debug` impl of `str` (`format!("{:?}", s)`). What it writes is
/// a function of the string alone, named [`debug_str_text`].
#[verifier::external_body]
fn debug_str(s: &str) -> (r: String)
    ensures
        r@ == debug_str_text(s@),
{
    format!("{:?}", s)
}

/// "Skill not found: " and the reference in its `Debug` form.
fn not_found(reference: &SkillRef) -> (r: String)
    ensures
        r@ == not_found_message(*reference),
{
    let mut message = String::from_str("Skill not found: ");
    match reference {
        SkillRef::Path(p) => {
            message.append("Path(");
            let text = debug_str(p.as_str());
            message.append(text.as_str());
        },
        SkillRef::BundledSkillId(id) => {
            message.append("BundledSkillId(");
            let text = debug_str(id.as_str());
            message.append(text.as_str());
        },
    }
    message.append(")");
    proof {
        reveal_strlit("Skill not found: ");
        reveal_strlit("Path(");
        reveal_strlit("BundledSkillId(");
        reveal_strlit(")");
    }
    message
}

/// How an agent names a skill to read.
#[derive(Debug, Clone, PartialEq, Eq)]
pub enum SkillRef {
    /// A path to a skill file, or a bare skill name in the path's place.
    Path(String),
    /// The id of a skill bundled with the application.
    BundledSkillId(String),
}

/// A skill found in a catalogue: the file it came from and its text.
#[derive(Debug, Clone, PartialEq, Eq)]
pub struct SkillHit {
    pub file_name: String,
    pub content: String,
}

/// What a `read_skill` action does.
#[derive(Debug, Clone, PartialEq, Eq)]
pub enum ReadSkillPlan {
    /// Answer at once with this skill.
    Read(SkillHit),
    /// Parse the skill file at this path, then answer with it (or with "Skill not found").
    ReadFromDisk(String),
    /// Fail with this message.
    Fail(String),
}

/// A reference in its `Debug` form: the variant's name and the string's `Debug` text in
/// brackets, as in `Path("deploy")`.
pub open spec fn reference_debug_text(reference: SkillRef) -> Seq<char> {
    match reference {
        SkillRef::Path(p) => "Path("@ + debug_str_text(p@) + ")"@,
        SkillRef::BundledSkillId(id) => "BundledSkillId("@ + debug_str_text(id@) + ")"@,
    }
}

/// The message for a bundled skill on a remote session whose host is not connected.
pub open spec fn bundled_unavailable_message() -> Seq<char> {
    "Bundled skills are not available on this remote session"@
}

/// The message for a reference that nothing resolves: "Skill not found: " and the reference
/// in its `Debug` form.
pub open spec fn not_found_message(reference: SkillRef) -> Seq<char> {
    "Skill not found: "@ + reference_debug_text(reference)
}

/// Whether `plan` is what a `read_skill` action does; see
/// [`ReadSkillExecutor::plan_read_skill`].
pub open spec fn is_read_skill_plan(
    plan: ReadSkillPlan,
    session: SkillSession,
    reference: SkillRef,
    by_reference: Option<SkillHit>,
    by_name: Option<SkillHit>,
    skill_file_shaped: bool,
) -> bool {
    if reference is BundledSkillId && session == (SkillSession::Remote { host_id: None }) {
        plan matches ReadSkillPlan::Fail(m) && m@ == bundled_unavailable_message()
    } else if by_reference is Some {
        plan == ReadSkillPlan::Read(by_reference->0)
    } else {
        match reference {
            SkillRef::Path(p) => if p@.len() > 0 && !has_separator(p@) && by_name is Some {
                plan == ReadSkillPlan::Read(by_name->0)
            } else if skill_file_shaped {
                plan == ReadSkillPlan::ReadFromDisk(p)
            } else {
                plan matches ReadSkillPlan::Fail(m) && m@ == not_found_message(reference)
            },
            SkillRef::BundledSkillId(_) => plan matches ReadSkillPlan::Fail(m) && m@ == not_found_message(
                reference,
            ),
        }
    }
}

/// Whether `s` contains a path separator (`/` or `\`).
pub open spec fn has_separator(s: Seq<char>) -> bool {
    exists|i: int| 0 <= i < s.len() && (#[trigger] s[i] == '/' || s[i] == '\\')
}

/// Calls `std::path::Path::is_absolute` on the path `s`. Whether a path is absolute depends
/// on the platform; the contract claims only what holds on every platform, as its
/// documentation describes it: an absolute path starts with a root, so it contains a
/// separator.
#[verifier::external_body]
fn path_is_absolute(s: &str) -> (r: bool)
    ensures
        r ==> has_separator(s@),
{
    std::path::Path::new(s).is_absolute()
}

/// Whether `s` contains `/` or `\`.
fn contains_separator(s: &str) -> (r: bool)
    ensures
        r == has_separator(s@),
{
    let n = s.unicode_len();
    let mut i: usize = 0;
    while i < n
        invariant
            n == s@.len(),
            i <= n,
            forall|j: int| 0 <= j < i ==> #[trigger] s@[j] != '/' && s@[j] != '\\',
        decreases n - i,
    {
        let c = s.get_char(i);
        if c == '/' || c == '\\' {
            return true;
        }
        i = i + 1;
    }
    false
}

/// A skill reference read as a skill name: a non-empty relative path of a single
/// component (no `/` or `\`) is the name itself; anything else is no name.
pub fn name_candidate(p: &str) -> (r: Option<&str>)
    ensures
        match r {
            Some(name) => name@ == p@ && p@.len() > 0 && !has_separator(p@),
            None => p@.len() == 0 || has_separator(p@),
        },
{
    if path_is_absolute(p) {
        return None;
    }
    if p.unicode_len() == 0 || contains_separator(p) {
        return None;
    }
    Some(p)
}

} // verus!
