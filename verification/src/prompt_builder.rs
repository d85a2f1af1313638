//! Prompts that carry text from outside, marked as data.

use crate::text;
use vstd::prelude::*;
use vstd::string::*;

verus! {

/// The tag before text from outside.
pub const EXTERNAL_OPEN: &'static str = "<external_data>\n";

/// The tag after text from outside.
pub const EXTERNAL_CLOSE: &'static str = "\n</external_data>";

/// The steps that a request to repair failing checks ends in, after the first.
pub const FIX_CI_STEPS: &'static str = "`)\n2. Investigate CI failure details from logs and failing tests\n3. Implement a minimal fix that makes CI green\n4. Run the repository's standard validation commands for the affected changes (including all failing/required CI checks)\n5. Commit and push to the existing PR branch\n\nOn the last line, print PR_URL=";

/// The steps that a request to address review feedback ends in.
pub const REWORK_STEPS: &'static str = "\nRequired workflow:\n1. Read the review feedback above carefully.\n2. Address all requested changes.\n3. Run the repository's standard validation commands.\n4. Commit and push to the existing PR branch (do not create a new PR).\n\nOn the last line, print PR_URL=";

/// What stands after the comment command in the prompt for an approved pull
/// request.
pub const APPROVED_END: &'static str = " --body \"Approved — ready to merge.\"\n\nThen stop. There is nothing else to implement.\n\nOn the last line, print PR_URL=";

/// `content` between the tags that mark it as data. The content stands as it is: a tag in
/// it is not altered.
pub open spec fn wrapped(content: Seq<char>) -> Seq<char> {
    EXTERNAL_OPEN@ + content + EXTERNAL_CLOSE@
}

/// `content` between the tags that mark it as data.
pub fn wrap_external_data(content: &str) -> (r: String)
    ensures
        r@ == wrapped(content@),
{
    let mut out = EXTERNAL_OPEN.to_owned();
    out.append(content);
    out.append(EXTERNAL_CLOSE);
    out
}

/// A title and the sections below it, each with a name and a text. A section
/// without a name is its text alone.
pub struct PromptBuilder {
    title: String,
    sections: Vec<(String, String)>,
}

/// The text of one section, with the line break before it.
pub open spec fn section_text(section: (Seq<char>, Seq<char>)) -> Seq<char> {
    if section.0.len() == 0 {
        "\n"@ + section.1
    } else {
        "\n"@ + section.0 + ":\n"@ + section.1
    }
}

/// The texts of all sections in their order.
pub open spec fn sections_text(sections: Seq<(Seq<char>, Seq<char>)>) -> Seq<char>
    decreases sections.len(),
{
    if sections.len() == 0 {
        Seq::empty()
    } else {
        sections_text(sections.drop_last()) + section_text(sections.last())
    }
}

/// The whole prompt: the title, the sections, and a line break at the end.
pub open spec fn prompt_text(
    title: Seq<char>,
    sections: Seq<(Seq<char>, Seq<char>)>,
) -> Seq<char> {
    title + sections_text(sections) + "\n"@
}

/// The section that an optional address adds, if it adds one.
pub open spec fn url_section(label: Seq<char>, url: Option<&str>) -> Seq<(Seq<char>, Seq<char>)> {
    match url {
        None => seq![],
        Some(u) => seq![(seq![], "- "@ + label + ": "@ + wrapped(u@))],
    }
}

impl PromptBuilder {
    /// The title.
    pub closed spec fn title(&self) -> Seq<char> {
        self.title@
    }

    /// The names and texts of the sections.
    pub closed spec fn sections(&self) -> Seq<(Seq<char>, Seq<char>)> {
        Seq::new(
            self.sections@.len(),
            |i: int| (self.sections@[i].0@, self.sections@[i].1@),
        )
    }

    /// A prompt of a title alone.
    pub fn new(title: &str) -> (r: PromptBuilder)
        ensures
            r.title() == title@,
            r.sections() == Seq::<(Seq<char>, Seq<char>)>::empty(),
    {
        let r = PromptBuilder { title: title.to_owned(), sections: Vec::new() };
        assert(r.sections() == Seq::<(Seq<char>, Seq<char>)>::empty());
        r
    }

    /// Adds a named section with `content` marked as data.
    pub fn add_section(self, name: &str, content: &str) -> (r: PromptBuilder)
        ensures
            r.title() == self.title(),
            r.sections() == self.sections().push((name@, wrapped(content@))),
    {
        let mut sections = self.sections;
        sections.push((name.to_owned(), wrap_external_data(content)));
        let r = PromptBuilder { title: self.title, sections };
        assert(r.sections() == self.sections().push((name@, wrapped(content@))));
        r
    }

    /// Adds a line with an address, where there is one.
    pub fn add_optional_url(self, label: &str, url: Option<&str>) -> (r: PromptBuilder)
        ensures
            r.title() == self.title(),
            r.sections() == self.sections() + url_section(label@, url),
    {
        match url {
            None => {
                assert(self.sections() + url_section(label@, url) == self.sections());
                self
            },
            Some(u) => {
                let mut line = "- ".to_owned();
                line.append(label);
                line.append(": ");
                let safe = wrap_external_data(u);
                line.append(safe.as_str());
                let mut sections = self.sections;
                sections.push((String::new(), line));
                let r = PromptBuilder { title: self.title, sections };
                assert(r.sections() == self.sections() + url_section(label@, url));
                r
            },
        }
    }

    /// The title, then each section, and a line break at the end.
    pub fn build(self) -> (r: String)
        ensures
            r@ == prompt_text(self.title(), self.sections()),
    {
        let ghost all = self.sections();
        let title = self.title;
        let sections = self.sections;
        let mut out = title.clone();
        let mut i: usize = 0;
        assert(all.take(0) == Seq::<(Seq<char>, Seq<char>)>::empty());
        assert(title@ + sections_text(all.take(0)) == title@);
        while i < sections.len()
            invariant
                i <= sections.len(),
                all.len() == sections@.len(),
                forall|j: int|
                    0 <= j < all.len() ==> #[trigger] all[j] == (
                        sections@[j].0@,
                        sections@[j].1@,
                    ),
                out@ == title@ + sections_text(all.take(i as int)),
            decreases sections.len() - i,
        {
            let ghost before = out@;
            assert(all.take(i + 1).drop_last() == all.take(i as int));
            assert(all[i as int] == (sections@[i as int].0@, sections@[i as int].1@));
            out.append("\n");
            if sections[i].0.as_str().is_empty() {
                out.append(sections[i].1.as_str());
            } else {
                out.append(sections[i].0.as_str());
                out.append(":\n");
                out.append(sections[i].1.as_str());
            }
            assert(out@ == before + section_text(all[i as int]));
            assert(out@ == title@ + (sections_text(all.take(i as int)) + section_text(
                all[i as int],
            )));
            i += 1;
        }
        assert(all.take(i as int) == all);
        out.append("\n");
        out
    }
}

/// The address of pull request `number` of `repository`.
pub open spec fn pull_address(repository: Seq<char>, number: nat) -> Seq<char> {
    "https://github.com/"@ + repository + "/pull/"@ + text::decimal(number)
}

/// The address of pull request `number` of `repository`.
pub fn canonical_pr_url(repository: &str, number: u64) -> (r: String)
    ensures
        r@ == pull_address(repository@, number as nat),
{
    let mut out = "https://github.com/".to_owned();
    out.append(repository);
    out.append("/pull/");
    let digits = text::decimal_text(number);
    out.append(digits.as_str());
    out
}

/// The prompt that asks for a repair of the failing checks of a pull request.
pub fn build_fix_ci_prompt(
    repository: &str,
    pr_number: u64,
    comment_body: &str,
    comment_url: Option<&str>,
    pr_url: Option<&str>,
) -> (r: String)
    ensures
        r@ == prompt_text(
            "CI failure repair requested for PR #"@ + text::decimal(pr_number as nat) + " in `"@
                + repository@ + "`."@,
            url_section("Trigger comment"@, comment_url) + url_section("PR URL"@, pr_url) + seq![
                ("Command payload"@, wrapped(comment_body@)),
            ],
        ) + "\nRequired workflow:\n1. Inspect failing checks for PR #"@ + text::decimal(
            pr_number as nat,
        ) + " (`gh pr checks "@ + text::decimal(pr_number as nat) + FIX_CI_STEPS@ + pull_address(
            repository@,
            pr_number as nat,
        ),
{
    let digits = text::decimal_text(pr_number);
    let mut title = "CI failure repair requested for PR #".to_owned();
    title.append(digits.as_str());
    title.append(" in `");
    title.append(repository);
    title.append("`.");
    let builder = PromptBuilder::new(title.as_str()).add_optional_url(
        "Trigger comment",
        comment_url,
    ).add_optional_url("PR URL", pr_url).add_section("Command payload", comment_body);
    assert(builder.sections() == url_section("Trigger comment"@, comment_url) + url_section(
        "PR URL"@,
        pr_url,
    ) + seq![("Command payload"@, wrapped(comment_body@))]);
    let mut out = builder.build();
    out.append("\nRequired workflow:\n1. Inspect failing checks for PR #");
    out.append(digits.as_str());
    out.append(" (`gh pr checks ");
    out.append(digits.as_str());
    out.append(FIX_CI_STEPS);
    let url = canonical_pr_url(repository, pr_number);
    out.append(url.as_str());
    out
}

/// The prompt that asks for changes that a review requested.
pub fn build_pr_rework_prompt(
    repository: &str,
    pr_number: u64,
    review_state: &str,
    review_body: &str,
    review_url: Option<&str>,
    pr_url: Option<&str>,
) -> (r: String)
    ensures
        r@ == prompt_text(
            "PR review feedback received on PR #"@ + text::decimal(pr_number as nat) + " in `"@
                + repository@ + "`.\nReview state: "@ + review_state@,
            url_section("Review URL"@, review_url) + url_section("PR URL"@, pr_url) + seq![
                ("Review feedback"@, wrapped(review_body@)),
            ],
        ) + REWORK_STEPS@ + pull_address(repository@, pr_number as nat),
{
    let digits = text::decimal_text(pr_number);
    let mut title = "PR review feedback received on PR #".to_owned();
    title.append(digits.as_str());
    title.append(" in `");
    title.append(repository);
    title.append("`.\nReview state: ");
    title.append(review_state);
    let builder = PromptBuilder::new(title.as_str()).add_optional_url(
        "Review URL",
        review_url,
    ).add_optional_url("PR URL", pr_url).add_section("Review feedback", review_body);
    assert(builder.sections() == url_section("Review URL"@, review_url) + url_section(
        "PR URL"@,
        pr_url,
    ) + seq![("Review feedback"@, wrapped(review_body@))]);
    let mut out = builder.build();
    out.append(REWORK_STEPS);
    let url = canonical_pr_url(repository, pr_number);
    out.append(url.as_str());
    out
}

/// The prompt for a pull request that was approved. `role` is what whoever approved it is
/// called.
pub fn build_pr_approved_prompt(
    repository: &str,
    pr_number: u64,
    role: &str,
    review_url: Option<&str>,
) -> (r: String)
    ensures
        r@ == prompt_text(
            "PR #"@ + text::decimal(pr_number as nat) + " in `"@ + repository@
                + "` has been approved by a "@ + role@ + "."@,
            url_section("Review URL"@, review_url),
        )
            + "\nAction required:\nPost a comment on the PR indicating it is ready to merge:\ngh pr comment "@
            + text::decimal(pr_number as nat) + " --repo "@ + repository@ + APPROVED_END@
            + pull_address(repository@, pr_number as nat),
{
    let digits = text::decimal_text(pr_number);
    let mut title = "PR #".to_owned();
    title.append(digits.as_str());
    title.append(" in `");
    title.append(repository);
    title.append("` has been approved by a ");
    title.append(role);
    title.append(".");
    let builder = PromptBuilder::new(title.as_str()).add_optional_url("Review URL", review_url);
    assert(builder.sections() == url_section("Review URL"@, review_url));
    let mut out = builder.build();
    out.append(
        "\nAction required:\nPost a comment on the PR indicating it is ready to merge:\ngh pr comment ",
    );
    out.append(digits.as_str());
    out.append(" --repo ");
    out.append(repository);
    out.append(APPROVED_END);
    let url = canonical_pr_url(repository, pr_number);
    out.append(url.as_str());
    out
}

/// A prompt begins with its title, and ends in a line break.
pub proof fn law_prompt_frames_sections(
    title: Seq<char>,
    sections: Seq<(Seq<char>, Seq<char>)>,
)
    ensures
        text::starts_with(prompt_text(title, sections), title),
        text::ends_with(prompt_text(title, sections), "\n"@),
        sections.len() == 0 ==> prompt_text(title, sections) == title + "\n"@,
{
    let p = prompt_text(title, sections);
    assert(p.take(title.len() as int) == title);
    assert(p.skip(p.len() - "\n"@.len()) == "\n"@);
    if sections.len() == 0 {
        assert(p == title + "\n"@);
    }
}

/// Every section's text stands in the prompt.
pub proof fn law_prompt_holds_every_section(
    title: Seq<char>,
    sections: Seq<(Seq<char>, Seq<char>)>,
    i: int,
)
    requires
        0 <= i < sections.len(),
    ensures
        text::contains(prompt_text(title, sections), section_text(sections[i])),
{
    lemma_sections_hold(sections, i);
    let all = sections_text(sections);
    let part = section_text(sections[i]);
    let j = choose|j: int| text::occurs_at(all, part, j);
    let p = prompt_text(title, sections);
    assert(p.subrange(title.len() + j, title.len() + j + part.len()) == all.subrange(
        j,
        j + part.len(),
    ));
    assert(text::occurs_at(p, part, title.len() + j));
}

proof fn lemma_sections_hold(sections: Seq<(Seq<char>, Seq<char>)>, i: int)
    requires
        0 <= i < sections.len(),
    ensures
        text::contains(sections_text(sections), section_text(sections[i])),
    decreases sections.len(),
{
    let all = sections_text(sections);
    let before = sections_text(sections.drop_last());
    let part = section_text(sections[i]);
    if i == sections.len() - 1 {
        assert(all.subrange(before.len() as int, (before.len() + part.len()) as int) == part);
        assert(text::occurs_at(all, part, before.len() as int));
    } else {
        lemma_sections_hold(sections.drop_last(), i);
        let j = choose|j: int| text::occurs_at(before, part, j);
        assert(all.subrange(j, j + part.len()) == before.subrange(j, j + part.len()));
        assert(text::occurs_at(all, part, j));
    }
}

/// Text from outside stands whole between its tags, each on a line of its own.
pub proof fn law_outside_text_stands_between_its_tags(content: Seq<char>)
    ensures
        wrapped(content) == "<external_data>\n"@ + content + "\n</external_data>"@,
        text::contains(wrapped(content), content),
{
    text::lemma_contains_part("<external_data>\n"@, content, "\n</external_data>"@);
}

/// Sections come one after the other in their order: those of two lists together are those of
/// the first and then those of the second. A section is its text on a line of its own, below
/// its name where it has one.
pub proof fn law_sections_come_in_their_order(
    a: Seq<(Seq<char>, Seq<char>)>,
    b: Seq<(Seq<char>, Seq<char>)>,
    name: Seq<char>,
    body: Seq<char>,
)
    ensures
        sections_text(a + b) == sections_text(a) + sections_text(b),
        sections_text(seq![(name, body)]) == section_text((name, body)),
        name.len() > 0 ==> section_text((name, body)) == "\n"@ + name + ":\n"@ + body,
        name.len() == 0 ==> section_text((name, body)) == "\n"@ + body,
    decreases b.len(),
{
    let one = seq![(name, body)];
    reveal_with_fuel(sections_text, 2);
    assert(one.drop_last() == Seq::<(Seq<char>, Seq<char>)>::empty());
    assert(sections_text(one) == section_text((name, body)));
    if b.len() == 0 {
        assert(a + b == a);
        assert(sections_text(a) + sections_text(b) == sections_text(a));
    } else {
        assert((a + b).drop_last() == a + b.drop_last());
        assert((a + b).last() == b.last());
        law_sections_come_in_their_order(a, b.drop_last(), name, body);
        assert(sections_text(a + b) == sections_text(a) + sections_text(b.drop_last())
            + section_text(b.last()));
    }
}

/// An address that is known is told with its label, marked as data; one that is not known adds
/// nothing.
pub proof fn law_known_address_is_told(label: Seq<char>, url: &str)
    ensures
        url_section(label, None).len() == 0,
        url_section(label, Some(url)).len() == 1,
        sections_text(url_section(label, Some(url))) == "\n- "@ + label + ": <external_data>\n"@ + url@
            + "\n</external_data>"@,
{
    let s = url_section(label, Some(url));
    law_sections_come_in_their_order(seq![], seq![], s[0].0, s[0].1);
    assert(s == seq![s[0]]);
    reveal_strlit("\n");
    reveal_strlit("- ");
    reveal_strlit("\n- ");
    reveal_strlit(": ");
    reveal_strlit("<external_data>\n");
    reveal_strlit(": <external_data>\n");
    assert("\n"@ + "- "@ == "\n- "@);
    assert(": "@ + "<external_data>\n"@ == ": <external_data>\n"@);
    assert(sections_text(s) == ("\n"@ + "- "@) + label + (": "@ + "<external_data>\n"@) + url@
        + "\n</external_data>"@);
}

/// The address of a pull request names its repository and its number, and no two pull requests
/// of a repository share one.
pub proof fn law_addresses_tell_pull_requests_apart(
    repository: Seq<char>,
    a: nat,
    b: nat,
)
    ensures
        pull_address(repository, a) == "https://github.com/"@ + repository + "/pull/"@
            + text::decimal(a),
        pull_address(repository, a) == pull_address(repository, b) ==> a == b,
{
    if pull_address(repository, a) == pull_address(repository, b) {
        let lead = "https://github.com/"@ + repository + "/pull/"@;
        let x = text::decimal(a);
        let y = text::decimal(b);
        assert((lead + x).skip(lead.len() as int) == x);
        assert((lead + y).skip(lead.len() as int) == y);
        text::law_decimal_tells_numbers_apart(a, b);
    }
}

} // verus!
