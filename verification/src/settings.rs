//! The limits that a task runs under, by what its request, its project and the server
//! say.

use crate::text;
use crate::text::CharClass;
use vstd::prelude::*;
use vstd::slice::slice_subrange;
use vstd::string::*;

verus! {

/// How much work an issue is thought to be.
#[derive(Clone, Copy, Debug, PartialEq, Eq, Structural)]
pub enum TriageComplexity {
    Low,
    Medium,
    High,
}

impl TriageComplexity {
    /// The review rounds for an issue of this size, where nothing else says how many.
    pub open spec fn rounds(self) -> u32 {
        if self == TriageComplexity::Low {
            2
        } else {
            8
        }
    }

    /// The review rounds for an issue of this size, where nothing else says how many.
    pub fn default_rounds(self) -> (r: u32)
        ensures
            r == self.rounds(),
    {
        match self {
            TriageComplexity::Low => 2,
            TriageComplexity::Medium => 8,
            TriageComplexity::High => 8,
        }
    }
}

/// The rounds of the agents' own review: what the request says, else what the server
/// says. The issue's size does not count.
pub fn effective_agent_review_round_limit(
    request: Option<u32>,
    server: u32,
    _triage_default: u32,
) -> (r: u32)
    ensures
        r == (match request {
            Some(n) => n,
            None => server,
        }),
{
    match request {
        Some(n) => n,
        None => server,
    }
}

/// The rounds of the hosted review: what the request says, else what the project says,
/// else what the server says. The issue's size does not count.
pub fn effective_hosted_review_round_limit(
    request: Option<u32>,
    project: Option<u32>,
    server: u32,
    _triage_default: u32,
) -> (r: u32)
    ensures
        r == (match (request, project) {
            (Some(n), _) => n,
            (None, Some(n)) => n,
            (None, None) => server,
        }),
{
    match request {
        Some(n) => n,
        None => match project {
            Some(n) => n,
            None => server,
        },
    }
}

/// The turns that a task may take: what the request says, else what the server says.
pub fn effective_max_turns(request: Option<u32>, server: Option<u32>) -> (r: Option<u32>)
    ensures
        r == (if request is Some {
            request
        } else {
            server
        }),
{
    if request.is_some() {
        request
    } else {
        server
    }
}

/// The seconds before the first look at the hosted review: one poll, but no longer than
/// the whole wait may take. A limit of zero is none.
pub fn initial_hosted_review_wait_secs(wait_secs: u64, budget_secs: u64) -> (r: u64)
    ensures
        r == (if budget_secs != 0 && budget_secs < wait_secs {
            budget_secs
        } else {
            wait_secs
        }),
{
    if budget_secs != 0 && budget_secs < wait_secs {
        budget_secs
    } else {
        wait_secs
    }
}

/// The seconds that the checks of a pull request may take when no hosted review waits
/// for them: a wait of at least a minute for each round that the hosted review would
/// have had.
pub open spec fn check_timeout(wait_secs: nat, max_rounds: nat) -> nat {
    let total = (if wait_secs < 60 {
        60
    } else {
        wait_secs
    }) * max_rounds;
    if total <= u64::MAX {
        total
    } else {
        u64::MAX as nat
    }
}

/// The seconds that the checks of a pull request may take when no hosted review waits
/// for them.
pub fn local_review_pr_check_timeout_secs(wait_secs: u64, max_rounds: u32) -> (r: u64)
    ensures
        r == check_timeout(wait_secs as nat, max_rounds as nat),
{
    let wait: u64 = if wait_secs < 60 {
        60
    } else {
        wait_secs
    };
    match wait.checked_mul(max_rounds as u64) {
        Some(total) => total,
        None => u64::MAX,
    }
}

/// The `owner/repo` that the address of a pull request on GitHub names.
pub open spec fn pr_slug(url: Seq<char>) -> Option<Seq<char>> {
    if text::starts_with(url, "https://github.com/"@) {
        let parts = text::split(url.skip(19), CharClass::Just('/'));
        if parts.len() >= 4 && parts[0].len() > 0 && parts[1].len() > 0 && parts[2] == "pull"@ {
            Some(parts[0] + "/"@ + parts[1])
        } else {
            None
        }
    } else {
        None
    }
}

/// The `owner/repo` that the address of a pull request on GitHub names.
pub fn repo_slug_of_pr(url: &str) -> (r: Option<String>)
    ensures
        text::opt_view(r) == pr_slug(url@),
{
    let chars = text::chars_of(url);
    let prefix = text::chars_of("https://github.com/");
    let len: usize = chars.len();
    proof {
        reveal_strlit("https://github.com/");
    }
    if !text::has_prefix(chars.as_slice(), prefix.as_slice()) {
        return None;
    }
    let rest = slice_subrange(chars.as_slice(), 19, len);
    assert(rest@ == url@.skip(19));
    let parts = text::pieces(rest, CharClass::Just('/'));
    let ghost all = text::split(rest@, CharClass::Just('/'));
    assert(all == text::rows(parts@));
    if parts.len() < 4 || parts[0].len() == 0 || parts[1].len() == 0 {
        return None;
    }
    let word = text::chars_of("pull");
    if !text::same(parts[2].as_slice(), word.as_slice()) {
        return None;
    }
    let mut slug = text::text_of(parts[0].as_slice());
    slug.append("/");
    slug.append(text::text_of(parts[1].as_slice()).as_str());
    Some(slug)
}

/// The `owner/repo` of a review: the one that the pull request's address names, else
/// the one found in the checkout.
pub fn review_repo_slug(pr_url: Option<&str>, detected: &str) -> (r: String)
    ensures
        r@ == (match pr_url {
            Some(url) => match pr_slug(url@) {
                Some(slug) => slug,
                None => detected@,
            },
            None => detected@,
        }),
{
    if let Some(url) = pr_url {
        if let Some(slug) = repo_slug_of_pr(url) {
            return slug;
        }
    }
    detected.to_owned()
}

/// Whether an issue is looked at before it is implemented.
pub fn should_run_issue_triage(skip_triage: bool, has_existing_pr: bool) -> (r: bool)
    ensures
        r == (!skip_triage && !has_existing_pr),
{
    !skip_triage && !has_existing_pr
}

/// What an agent may do.
#[derive(Clone, Copy, Debug, PartialEq, Eq, Structural)]
pub enum CapabilityProfile {
    ReadOnly,
    Standard,
    Full,
}

impl CapabilityProfile {
    /// The tools that an agent may use; none are named where it may use all.
    pub open spec fn tool_names(self) -> Option<Seq<Seq<char>>> {
        match self {
            CapabilityProfile::ReadOnly => Some(seq!["Read"@, "Grep"@, "Glob"@]),
            CapabilityProfile::Standard => Some(seq!["Read"@, "Write"@, "Edit"@, "Bash"@]),
            CapabilityProfile::Full => None,
        }
    }

    /// The tools that an agent may use; none are named where it may use all.
    pub fn tools(self) -> (r: Option<Vec<String>>)
        ensures
            tool_list(r) == self.tool_names(),
    {
        let mut out: Vec<String> = Vec::new();
        match self {
            CapabilityProfile::ReadOnly => {
                out.push("Read".to_owned());
                out.push("Grep".to_owned());
                out.push("Glob".to_owned());
            },
            CapabilityProfile::Standard => {
                out.push("Read".to_owned());
                out.push("Write".to_owned());
                out.push("Edit".to_owned());
                out.push("Bash".to_owned());
            },
            CapabilityProfile::Full => {
                return None;
            },
        }
        assert(text::texts(out@) == self.tool_names()->0);
        Some(out)
    }
}

/// The view of an optional list of names.
pub open spec fn tool_list(o: Option<Vec<String>>) -> Option<Seq<Seq<char>>> {
    match o {
        None => None,
        Some(v) => Some(text::texts(v@)),
    }
}

/// The error of a profile that was to restrict an agent and does not.
pub open spec fn unrestricted_error() -> Seq<char> {
    "capability profile Full returned None from tools() \u{2014} misconfiguration"@
}

/// The tools of a profile that restricts an agent. One that does not is an error: an
/// agent is never given more than was asked for without a word.
pub fn restricted_tools(profile: CapabilityProfile) -> (r: Result<Vec<String>, String>)
    ensures
        r matches Ok(tools) ==> profile.tool_names() == Some(text::texts(tools@)),
        r matches Err(e) ==> profile == CapabilityProfile::Full && e@ == unrestricted_error(),
        r is Err == (profile == CapabilityProfile::Full),
{
    match profile.tools() {
        Some(tools) => Ok(tools),
        None => Err(
            "capability profile Full returned None from tools() \u{2014} misconfiguration".to_owned(),
        ),
    }
}

/// A small issue has two rounds, every other eight.
pub proof fn law_small_issues_have_two_rounds(size: TriageComplexity)
    ensures
        size == TriageComplexity::Low ==> size.rounds() == 2,
        size != TriageComplexity::Low ==> size.rounds() == 8,
{
}

/// The checks have at least a minute for each round and no less than the wait that was asked
/// for, as far as a time can be counted.
pub proof fn law_checks_have_time_for_every_round(wait_secs: nat, max_rounds: nat)
    ensures
        wait_secs >= 60 && wait_secs * max_rounds <= u64::MAX ==> check_timeout(
            wait_secs,
            max_rounds,
        ) == wait_secs * max_rounds,
        wait_secs < 60 && 60 * max_rounds <= u64::MAX ==> check_timeout(wait_secs, max_rounds) == 60
            * max_rounds,
        check_timeout(wait_secs, max_rounds) <= u64::MAX,
        wait_secs >= 60 && wait_secs * max_rounds > u64::MAX ==> check_timeout(
            wait_secs,
            max_rounds,
        ) == u64::MAX,
{
}

/// The address of a pull request names its repository, whatever stands behind the number.
pub proof fn law_address_names_its_repository(
    owner: Seq<char>,
    repo: Seq<char>,
    rest: Seq<char>,
)
    requires
        owner.len() > 0,
        repo.len() > 0,
        forall|i: int| 0 <= i < owner.len() ==> #[trigger] owner[i] != '/',
        forall|i: int| 0 <= i < repo.len() ==> #[trigger] repo[i] != '/',
    ensures
        pr_slug("https://github.com/"@ + owner + "/"@ + repo + "/pull/"@ + rest) == Some(
            owner + "/"@ + repo,
        ),
{
    let url = "https://github.com/"@ + owner + "/"@ + repo + "/pull/"@ + rest;
    reveal_strlit("https://github.com/");
    reveal_strlit("/");
    reveal_strlit("pull");
    reveal_strlit("/pull/");
    let k = CharClass::Just('/');
    text::lemma_begins("https://github.com/"@, owner + "/"@ + repo + "/pull/"@ + rest);
    assert(url == "https://github.com/"@ + (owner + "/"@ + repo + "/pull/"@ + rest));
    let behind = url.skip(19);
    let parts = seq![owner, repo, "pull"@];
    assert(text::join(parts, "/"@) == owner + "/"@ + repo + "/"@ + "pull"@) by {
        reveal_with_fuel(text::join, 4);
        assert(parts.drop_last() == seq![owner, repo]);
        assert(seq![owner, repo].drop_last() == seq![owner]);
    }
    let head = text::join(parts, "/"@);
    assert(seq!['/'] == "/"@);
    assert forall|i: int, j: int|
        0 <= i < parts.len() && 0 <= j < parts[i].len() implies #[trigger] parts[i][j] != '/' by {
        if i == 0 {
            assert(owner[j] != '/');
        } else if i == 1 {
            assert(repo[j] != '/');
        }
    }
    text::law_split_undoes_join(parts, '/');
    let a = head + "/"@;
    assert(behind == a + rest);
    text::lemma_split_concat(a, rest, k);
    text::lemma_split_nonempty(rest, k);
    assert(a.drop_last() == head);
    assert(text::split(a, k) == parts.push(Seq::<char>::empty()));
    assert(text::split(a, k).drop_last() == parts);
    let all = text::split(behind, k);
    assert(all == parts + text::split(rest, k));
    assert(all[0] == owner && all[1] == repo && all[2] == "pull"@);
}

/// An agent that may only read has no tool that writes or runs anything; one that may work
/// has those; and one that may do everything has no list.
pub proof fn law_profiles_give_what_they_say(name: Seq<char>)
    ensures
        CapabilityProfile::ReadOnly.tool_names() matches Some(tools) && (tools.contains(name)
            <==> name == "Read"@ || name == "Grep"@ || name == "Glob"@),
        CapabilityProfile::Standard.tool_names() matches Some(tools) && (tools.contains(name)
            <==> name == "Read"@ || name == "Write"@ || name == "Edit"@ || name == "Bash"@),
        CapabilityProfile::Full.tool_names() is None,
{
    let a = CapabilityProfile::ReadOnly.tool_names()->0;
    let b = CapabilityProfile::Standard.tool_names()->0;
    assert(a[0] == "Read"@ && a[1] == "Grep"@ && a[2] == "Glob"@);
    assert(b[0] == "Read"@ && b[1] == "Write"@ && b[2] == "Edit"@ && b[3] == "Bash"@);
}

/// A list of tools is seen as it is.
pub proof fn law_tools_are_seen_as_they_are(v: Vec<String>)
    ensures
        tool_list(None) is None,
        tool_list(Some(v)) == Some(text::texts(v@)),
        unrestricted_error()
            == "capability profile Full returned None from tools() \u{2014} misconfiguration"@,
{
}

} // verus!
