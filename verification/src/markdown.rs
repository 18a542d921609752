use crate::text::{
    begins_with, char_views, chars_of, find_char, first_char, hyphenate, hyphenated, lines_of,
    lowercase, parse_u32, parsed_u32, slice, split_lines, starts_with, string_of, strip_end,
    strip_start, stripped_end, stripped_start, to_lowercase, trim, trimmed,
};
use crate::types::{story_views, text_views, Prd, PrdView, Story, StoryView};
use vstd::prelude::*;
use vstd::string::StringExecFns;

verus! {

/// The part of a requirements document in markdown that a line belongs to.
#[derive(Debug, Clone, Copy, PartialEq, Eq, Structural)]
pub enum Section {
    /// Before the description: a title may come.
    Header,
    /// The description.
    Description,
    /// After the description: the heading of the stories is looked for.
    Seeking,
    /// The stories.
    Stories,
}

/// What the lines read so far have given of a requirements document.
pub struct Reading {
    pub section: Section,
    pub project: Seq<char>,
    pub description: Seq<char>,
    pub stories: Seq<StoryView>,
    pub current: Option<StoryView>,
    pub in_criteria: bool,
    pub criteria: Seq<Seq<char>>,
}

/// Whether a line gives the title of the document.
pub open spec fn is_title(line: Seq<char>) -> bool {
    starts_with(line, "# "@)
}

/// Whether a line is the heading of the description.
pub open spec fn opens_description(line: Seq<char>) -> bool {
    starts_with(line, "## Problem Statement"@) || starts_with(line, "## Description"@)
}

/// Whether a line is the heading of a section.
pub open spec fn is_section(line: Seq<char>) -> bool {
    starts_with(line, "##"@)
}

/// Whether a line is the heading of the stories.
pub open spec fn opens_stories(line: Seq<char>) -> bool {
    starts_with(line, "## User Stories"@) || starts_with(line, "## Stories"@)
}

/// Whether a line, white space aside, is one of the three lines that
/// describe a story.
pub open spec fn describes_story(line: Seq<char>) -> bool {
    starts_with(line, "**As a**"@) || starts_with(line, "**I want**"@) || starts_with(
        line,
        "**So that**"@,
    )
}

/// The priority of a story that states none: its place among the stories,
/// counted from 1.
pub open spec fn default_priority(earlier: nat) -> u32 {
    if earlier < u32::MAX {
        (earlier + 1) as u32
    } else {
        u32::MAX
    }
}

/// The story that a heading begins: what stands before the first colon is
/// its id, what stands after it its title.
pub open spec fn story_of_heading(heading: Seq<char>, colon: int, earlier: nat) -> StoryView {
    StoryView {
        id: trim(heading.subrange(0, colon)),
        title: trim(heading.subrange(colon + 1, heading.len() as int)),
        description: Seq::empty(),
        acceptance_criteria: Seq::empty(),
        priority: default_priority(earlier),
        passes: false,
        notes: Seq::empty(),
    }
}

/// What a line of the list of criteria names, marks for open and done items
/// and the hyphen taken off.
pub open spec fn criterion_of(line: Seq<char>) -> Seq<char> {
    trim(strip_start(strip_start(strip_start(line, "- [ ]"@), "- [x]"@), "-"@))
}

impl Reading {
    /// The reading before any line, with the name that the project has
    /// unless the document gives it a title.
    pub open spec fn begin(project: Seq<char>) -> Reading {
        Reading {
            section: Section::Header,
            project,
            description: Seq::empty(),
            stories: Seq::empty(),
            current: None,
            in_criteria: false,
            criteria: Seq::empty(),
        }
    }

    /// The stories with the one that is being read, which takes the criteria
    /// gathered for it.
    pub open spec fn closed_stories(self) -> Seq<StoryView> {
        match self.current {
            Some(story) => self.stories.push(
                StoryView { acceptance_criteria: self.criteria, ..story },
            ),
            None => self.stories,
        }
    }

    /// The reading after a line of the stories, white space around the line
    /// taken off.
    ///
    /// A heading of the third level with a colon ends the story before it and
    /// begins the next. The three describing lines go, without their stars at
    /// both ends, into the description of the story, parted by spaces. A
    /// priority line sets the priority where it states a number. After the
    /// heading of the criteria every line that begins with a hyphen names a
    /// criterion, until a line begins with two stars.
    pub open spec fn after_story_line(self, line: Seq<char>) -> Reading {
        if starts_with(line, "### "@) && first_char(line, ':') is Some {
            let heading = strip_start(line, "### "@);
            let stories = self.closed_stories();
            Reading {
                stories,
                criteria: if self.current is Some {
                    Seq::empty()
                } else {
                    self.criteria
                },
                current: match first_char(heading, ':') {
                    Some(colon) => Some(story_of_heading(heading, colon, stories.len())),
                    None => None,
                },
                in_criteria: if first_char(heading, ':') is Some {
                    false
                } else {
                    self.in_criteria
                },
                ..self
            }
        } else if describes_story(line) {
            match self.current {
                Some(story) => Reading {
                    current: Some(
                        StoryView {
                            description: if story.description.len() > 0 {
                                story.description + " "@
                            } else {
                                story.description
                            } + strip_end(strip_start(line, "**"@), "**"@),
                            ..story
                        },
                    ),
                    ..self
                },
                None => self,
            }
        } else if starts_with(line, "**Acceptance Criteria:**"@) {
            Reading { in_criteria: true, ..self }
        } else if starts_with(line, "**Priority:**"@) && self.current is Some {
            Reading {
                current: match parsed_u32(trim(strip_start(line, "**Priority:**"@))) {
                    Some(priority) => Some(StoryView { priority, ..self.current->0 }),
                    None => self.current,
                },
                in_criteria: false,
                ..self
            }
        } else if self.in_criteria && starts_with(line, "-"@) {
            if criterion_of(line).len() > 0 {
                Reading { criteria: self.criteria.push(criterion_of(line)), ..self }
            } else {
                self
            }
        } else if starts_with(line, "**"@) {
            Reading { in_criteria: false, ..self }
        } else {
            self
        }
    }

    /// The reading after one more line.
    ///
    /// Before the description a title line names the project. The heading of
    /// the description begins it; its lines are gathered, each followed by a
    /// space, empty ones left out, until a section heading ends it. From
    /// there the heading of the stories is looked for, beginning with the
    /// line that ended the description. What follows that heading are the
    /// stories.
    pub open spec fn after(self, line: Seq<char>) -> Reading {
        match self.section {
            Section::Header => {
                if is_title(line) {
                    Reading { project: trim(strip_start(line, "# "@)), ..self }
                } else if opens_description(line) {
                    Reading { section: Section::Description, ..self }
                } else {
                    self
                }
            },
            Section::Description => {
                if is_section(line) {
                    Reading {
                        section: if opens_stories(line) {
                            Section::Stories
                        } else {
                            Section::Seeking
                        },
                        ..self
                    }
                } else if line.len() > 0 {
                    Reading { description: self.description + line + " "@, ..self }
                } else {
                    self
                }
            },
            Section::Seeking => {
                if opens_stories(line) {
                    Reading { section: Section::Stories, ..self }
                } else {
                    self
                }
            },
            Section::Stories => self.after_story_line(trim(line)),
        }
    }
}

/// The reading after the first `n` of the lines.
pub open spec fn reading_at(lines: Seq<Seq<char>>, project: Seq<char>, n: int) -> Reading
    decreases n,
{
    if n <= 0 {
        Reading::begin(project)
    } else {
        reading_at(lines, project, n - 1).after(lines[n - 1])
    }
}

/// The name of the branch for a project that is given none: `ralph/` and
/// the project's name in lower case with hyphens for spaces.
pub open spec fn default_branch(project: Seq<char>) -> Seq<char> {
    "ralph/"@ + hyphenated(lowercase(project))
}

/// The requirements document that a markdown text writes, for a project
/// with the given name and, if it has one, the given branch. A text without
/// a story is refused.
pub open spec fn parsed_prd(
    markdown: Seq<char>,
    project: Seq<char>,
    branch_name: Option<Seq<char>>,
) -> Result<PrdView, Seq<char>> {
    let lines = lines_of(markdown);
    let reading = reading_at(lines, project, lines.len() as int);
    if reading.closed_stories().len() == 0 {
        Err("No stories found in PRD markdown"@)
    } else {
        Ok(
            PrdView {
                project: reading.project,
                branch_name: match branch_name {
                    Some(branch) => branch,
                    None => default_branch(reading.project),
                },
                description: trim(reading.description),
                stories: reading.closed_stories(),
            },
        )
    }
}

/// The name of the branch for a project that is given none, from the
/// project's name in lower case.
pub fn branch_for(lower_name: &str) -> (branch: String)
    ensures
        branch@ == "ralph/"@ + hyphenated(lower_name@),
{
    let mut branch = String::from_str("ralph/");
    let name = hyphenate(&chars_of(lower_name));
    let name_text = string_of(&name);
    branch.append(name_text.as_str());
    branch
}

/// The requirements document that is made from a reading with a story, the
/// branch of the project given or the lower-case form of its name.
pub open spec fn prd_of_reading(
    reading: Reading,
    branch_name: Option<Seq<char>>,
    lower: Seq<char>,
) -> PrdView {
    PrdView {
        project: reading.project,
        branch_name: match branch_name {
            Some(branch) => branch,
            None => "ralph/"@ + hyphenated(lower),
        },
        description: trim(reading.description),
        stories: reading.closed_stories(),
    }
}

fn line_begins(line: &Vec<char>, marker: &str) -> (begins: bool)
    ensures
        begins == starts_with(line@, marker@),
{
    let marker_chars = chars_of(marker);
    begins_with(line, &marker_chars)
}

fn strip_marker(line: &Vec<char>, marker: &str) -> (rest: Vec<char>)
    ensures
        rest@ == strip_start(line@, marker@),
{
    let marker_chars = chars_of(marker);
    stripped_start(line, &marker_chars)
}

fn strip_marker_end(line: &Vec<char>, marker: &str) -> (rest: Vec<char>)
    ensures
        rest@ == strip_end(line@, marker@),
{
    let marker_chars = chars_of(marker);
    stripped_end(line, &marker_chars)
}

spec fn optional_story(story: Option<Story>) -> Option<StoryView> {
    match story {
        Some(story) => Some(story@),
        None => None,
    }
}

/// What is read of a requirements document, as the parser holds it.
struct Progress {
    section: Section,
    project: Vec<char>,
    description: Vec<char>,
    stories: Vec<Story>,
    current: Option<Story>,
    in_criteria: bool,
    criteria: Vec<String>,
}

impl View for Progress {
    type V = Reading;

    closed spec fn view(&self) -> Reading {
        Reading {
            section: self.section,
            project: self.project@,
            description: self.description@,
            stories: story_views(self.stories@),
            current: optional_story(self.current),
            in_criteria: self.in_criteria,
            criteria: text_views(self.criteria@),
        }
    }
}

fn priority_for(earlier: usize) -> (priority: u32)
    ensures
        priority == default_priority(earlier as nat),
{
    if earlier < u32::MAX as usize {
        (earlier + 1) as u32
    } else {
        u32::MAX
    }
}

fn append_chars(target: &mut Vec<char>, more: &Vec<char>)
    ensures
        final(target)@ == old(target)@ + more@,
{
    let mut i: usize = 0;
    assert(target@ =~= old(target)@ + more@.take(0));
    while i < more.len()
        invariant
            i <= more.len(),
            target@ == old(target)@ + more@.take(i as int),
        decreases more.len() - i,
    {
        target.push(more[i]);
        assert(more@.take(i + 1) =~= more@.take(i as int).push(more@[i as int]));
        assert(target@ =~= old(target)@ + more@.take(i + 1));
        i += 1;
    }
    assert(more@.take(more@.len() as int) =~= more@);
}

impl Progress {
    /// Puts the story that is being read, if there is one, among the stories
    /// with the criteria gathered for it.
    fn close_story(&mut self)
        ensures
            final(self)@ == (Reading {
                stories: old(self)@.closed_stories(),
                criteria: if old(self)@.current is Some {
                    Seq::empty()
                } else {
                    old(self)@.criteria
                },
                current: None,
                ..old(self)@
            }),
    {
        let mut taken: Option<Story> = None;
        std::mem::swap(&mut taken, &mut self.current);
        match taken {
            Some(mut story) => {
                let ghost before = story_views(self.stories@);
                let mut criteria: Vec<String> = Vec::new();
                std::mem::swap(&mut criteria, &mut self.criteria);
                story.acceptance_criteria = criteria;
                self.stories.push(story);
                assert(story_views(self.stories@) =~= before.push(story@));
                assert(text_views(self.criteria@) =~= Seq::<Seq<char>>::empty());
            },
            None => {},
        }
    }

    fn take_story_line(&mut self, line: &Vec<char>)
        ensures
            final(self)@ == old(self)@.after_story_line(line@),
    {
        let colon_in_line = find_char(line, ':');
        if line_begins(line, "### ") && colon_in_line.is_some() {
            let heading = strip_marker(line, "### ");
            let colon = find_char(&heading, ':');
            self.close_story();
            match colon {
                Some(colon) => {
                    let id = trimmed(&slice(&heading, 0, colon));
                    let title = trimmed(&slice(&heading, colon + 1, heading.len()));
                    let story = Story {
                        id: string_of(&id),
                        title: string_of(&title),
                        description: String::new(),
                        acceptance_criteria: Vec::new(),
                        priority: priority_for(self.stories.len()),
                        passes: false,
                        notes: String::new(),
                    };
                    assert(text_views(story.acceptance_criteria@) =~= Seq::<Seq<char>>::empty());
                    self.current = Some(story);
                    self.in_criteria = false;
                },
                None => {},
            }
        } else if line_begins(line, "**As a**") || line_begins(line, "**I want**") || line_begins(
            line,
            "**So that**",
        ) {
            let mut taken: Option<Story> = None;
            std::mem::swap(&mut taken, &mut self.current);
            match taken {
                Some(mut story) => {
                    if story.description.as_str().unicode_len() > 0 {
                        story.description.append(" ");
                    }
                    let words = strip_marker_end(&strip_marker(line, "**"), "**");
                    let text = string_of(&words);
                    story.description.append(text.as_str());
                    self.current = Some(story);
                },
                None => {},
            }
        } else if line_begins(line, "**Acceptance Criteria:**") {
            self.in_criteria = true;
        } else if line_begins(line, "**Priority:**") && self.current.is_some() {
            let number = trimmed(&strip_marker(line, "**Priority:**"));
            let mut taken: Option<Story> = None;
            std::mem::swap(&mut taken, &mut self.current);
            match taken {
                Some(mut story) => {
                    match parse_u32(&number) {
                        Some(priority) => {
                            story.priority = priority;
                        },
                        None => {},
                    }
                    self.current = Some(story);
                },
                None => {},
            }
            self.in_criteria = false;
        } else if self.in_criteria && line_begins(line, "-") {
            let criterion = trimmed(
                &strip_marker(&strip_marker(&strip_marker(line, "- [ ]"), "- [x]"), "-"),
            );
            if criterion.len() > 0 {
                let ghost before = text_views(self.criteria@);
                let text = string_of(&criterion);
                self.criteria.push(text);
                assert(text_views(self.criteria@) =~= before.push(text@));
            }
        } else if line_begins(line, "**") {
            self.in_criteria = false;
        }
    }

    fn take_line(&mut self, line: &Vec<char>)
        ensures
            final(self)@ == old(self)@.after(line@),
    {
        match self.section {
            Section::Header => {
                if line_begins(line, "# ") {
                    self.project = trimmed(&strip_marker(line, "# "));
                } else if line_begins(line, "## Problem Statement") || line_begins(
                    line,
                    "## Description",
                ) {
                    self.section = Section::Description;
                }
            },
            Section::Description => {
                if line_begins(line, "##") {
                    if line_begins(line, "## User Stories") || line_begins(line, "## Stories") {
                        self.section = Section::Stories;
                    } else {
                        self.section = Section::Seeking;
                    }
                } else if line.len() > 0 {
                    let ghost before = self.description@;
                    append_chars(&mut self.description, line);
                    self.description.push(' ');
                    proof {
                        reveal_strlit(" ");
                        assert(" "@ =~= seq![' ']);
                        assert(self.description@ =~= before + line@ + " "@);
                    }
                }
            },
            Section::Seeking => {
                if line_begins(line, "## User Stories") || line_begins(line, "## Stories") {
                    self.section = Section::Stories;
                }
            },
            Section::Stories => {
                let inner = trimmed(line);
                self.take_story_line(&inner);
            },
        }
    }
}

/// Makes the requirements document out of what was read, if a story was
/// read. `lower` is the project's name in lower case; it is used where the
/// project is given no branch.
fn finish(progress: Progress, branch_name: Option<&str>, lower: &str) -> (prd: Result<
    Prd,
    String,
>)
    ensures
        match prd {
            Ok(prd) => progress@.closed_stories().len() > 0 && prd@ == prd_of_reading(
                progress@,
                match branch_name {
                    Some(branch) => Some(branch@),
                    None => None,
                },
                lower@,
            ),
            Err(error) => progress@.closed_stories().len() == 0 && error@
                == "No stories found in PRD markdown"@,
        },
{
    let mut progress = progress;
    let ghost reading = progress@;
    progress.close_story();
    if progress.stories.len() == 0 {
        return Err(String::from_str("No stories found in PRD markdown"));
    }
    let branch = match branch_name {
        Some(branch) => String::from_str(branch),
        None => branch_for(lower),
    };
    Ok(
        Prd {
            project: string_of(&progress.project),
            branch_name: branch,
            description: string_of(&trimmed(&progress.description)),
            stories: progress.stories,
        },
    )
}

/// Reads a requirements document out of markdown, for a project with the
/// given name, which a title in the document replaces, and, if it has one,
/// the given branch.
pub fn parse_markdown_prd(markdown: &str, project: &str, branch_name: Option<&str>) -> (prd:
    Result<Prd, String>)
    ensures
        match prd {
            Ok(prd) => parsed_prd(
                markdown@,
                project@,
                match branch_name {
                    Some(branch) => Some(branch@),
                    None => None,
                },
            ) == Ok::<PrdView, Seq<char>>(prd@),
            Err(error) => parsed_prd(
                markdown@,
                project@,
                match branch_name {
                    Some(branch) => Some(branch@),
                    None => None,
                },
            ) == Err::<PrdView, Seq<char>>(error@),
        },
{
    let chars = chars_of(markdown);
    let lines = split_lines(&chars);
    let ghost texts = lines_of(markdown@);
    let mut progress = Progress {
        section: Section::Header,
        project: chars_of(project),
        description: Vec::new(),
        stories: Vec::new(),
        current: None,
        in_criteria: false,
        criteria: Vec::new(),
    };
    assert(progress@.stories =~= Seq::<StoryView>::empty());
    assert(progress@.criteria =~= Seq::<Seq<char>>::empty());
    let mut n: usize = 0;
    while n < lines.len()
        invariant
            n <= lines.len(),
            char_views(lines@) == texts,
            progress@ == reading_at(texts, project@, n as int),
        decreases lines.len() - n,
    {
        assert(texts[n as int] == lines@[n as int]@);
        progress.take_line(&lines[n]);
        n += 1;
    }
    let name = string_of(&progress.project);
    let lower = to_lowercase(name.as_str());
    finish(progress, branch_name, lower.as_str())
}

} // verus!
