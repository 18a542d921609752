use crate::ident::{fresh_id, is_random_id};
use crate::text::{
    begins_with, char_views, chars_of, lines_of, split_lines, starts_with, string_of,
    strip_start, stripped_start, trim, trimmed,
};
use crate::types::Guardrail;
use vstd::prelude::*;
use vstd::string::StringExecFns;

verus! {

/// What a guardrail says, apart from its id.
pub struct SignView {
    pub title: Seq<char>,
    pub trigger: Seq<char>,
    pub instruction: Seq<char>,
    pub added_after: Seq<char>,
}

/// What a guardrails file says of one guardrail.
#[derive(Debug, PartialEq, Eq)]
pub struct Sign {
    pub title: String,
    pub trigger: String,
    pub instruction: String,
    pub added_after: String,
}

impl View for Sign {
    type V = SignView;

    open spec fn view(&self) -> SignView {
        SignView {
            title: self.title@,
            trigger: self.trigger@,
            instruction: self.instruction@,
            added_after: self.added_after@,
        }
    }
}

impl Sign {
    /// The guardrail that says this and has the given id.
    pub fn with_id(self, id: String) -> (guardrail: Guardrail)
        ensures
            guardrail.id@ == id@,
            sign_of(guardrail) == self@,
    {
        Guardrail {
            id,
            title: self.title,
            trigger: self.trigger,
            instruction: self.instruction,
            added_after: self.added_after,
        }
    }
}

/// The views of a list of signs.
pub open spec fn sign_views(signs: Seq<Sign>) -> Seq<SignView> {
    Seq::new(signs.len(), |i: int| signs[i]@)
}

/// What a guardrail says.
pub open spec fn sign_of(guardrail: Guardrail) -> SignView {
    SignView {
        title: guardrail.title@,
        trigger: guardrail.trigger@,
        instruction: guardrail.instruction@,
        added_after: guardrail.added_after@,
    }
}

/// What the guardrails of a list say, in order.
pub open spec fn signs_of(guardrails: Seq<Guardrail>) -> Seq<SignView> {
    Seq::new(guardrails.len(), |i: int| sign_of(guardrails[i]))
}

/// A guardrail as far as the lines read so far have given it.
pub struct Draft {
    pub title: Option<Seq<char>>,
    pub trigger: Option<Seq<char>>,
    pub instruction: Option<Seq<char>>,
    pub added_after: Option<Seq<char>>,
}

impl Draft {
    /// The draft before any line is read.
    pub open spec fn blank() -> Draft {
        Draft { title: None, trigger: None, instruction: None, added_after: None }
    }

    /// Whether nothing is missing.
    pub open spec fn complete(self) -> bool {
        self.title is Some && self.trigger is Some && self.instruction is Some
            && self.added_after is Some
    }

    /// The guardrail of a complete draft.
    pub open spec fn sign(self) -> SignView {
        SignView {
            title: self.title->0,
            trigger: self.trigger->0,
            instruction: self.instruction->0,
            added_after: self.added_after->0,
        }
    }

    /// The draft after one more line. A heading begins a new guardrail and
    /// gives its title; the three kinds of item line give the other parts;
    /// every other line is passed over.
    pub open spec fn after(self, line: Seq<char>) -> Draft {
        if starts_with(line, "## Sign:"@) {
            Draft {
                title: Some(field(line, "## Sign:"@)),
                trigger: None,
                instruction: None,
                added_after: None,
            }
        } else if starts_with(line, "- **Trigger**:"@) {
            Draft { trigger: Some(field(line, "- **Trigger**:"@)), ..self }
        } else if starts_with(line, "- **Instruction**:"@) {
            Draft { instruction: Some(field(line, "- **Instruction**:"@)), ..self }
        } else if starts_with(line, "- **Added after**:"@) {
            Draft { added_after: Some(field(line, "- **Added after**:"@)), ..self }
        } else {
            self
        }
    }

    /// The guardrail that a line brings to an end: a heading ends the
    /// guardrail before it, which counts only if it is complete.
    pub open spec fn closed_by(self, line: Seq<char>) -> Option<SignView> {
        if starts_with(line, "## Sign:"@) && self.complete() {
            Some(self.sign())
        } else {
            None
        }
    }
}

/// What a line says after its marker: the line without the marker, as often
/// as it stands at the start, and without white space around.
pub open spec fn field(line: Seq<char>, marker: Seq<char>) -> Seq<char> {
    trim(strip_start(line, marker))
}

/// The draft after the first `n` of the lines.
pub open spec fn draft_at(lines: Seq<Seq<char>>, n: int) -> Draft
    decreases n,
{
    if n <= 0 {
        Draft::blank()
    } else {
        draft_at(lines, n - 1).after(lines[n - 1])
    }
}

/// The guardrails that the first `n` of the lines have brought to an end.
pub open spec fn signs_in(lines: Seq<Seq<char>>, n: int) -> Seq<SignView>
    decreases n,
{
    if n <= 0 {
        Seq::empty()
    } else {
        match draft_at(lines, n - 1).closed_by(lines[n - 1]) {
            Some(sign) => signs_in(lines, n - 1).push(sign),
            None => signs_in(lines, n - 1),
        }
    }
}

/// The guardrails of a guardrails file: those that a later heading brings
/// to an end, and the last one if it is complete.
pub open spec fn parsed_signs(content: Seq<char>) -> Seq<SignView> {
    let lines = lines_of(content);
    let closed = signs_in(lines, lines.len() as int);
    let last = draft_at(lines, lines.len() as int);
    if last.complete() {
        closed.push(last.sign())
    } else {
        closed
    }
}

/// The section that puts a guardrail into a guardrails file.
pub open spec fn file_section(sign: SignView) -> Seq<char> {
    "\n## Sign: "@ + sign.title + "\n\n- **Trigger**: "@ + sign.trigger + "\n- **Instruction**: "@
        + sign.instruction + "\n- **Added after**: "@ + sign.added_after + "\n\n"@
}

/// The heading that a new guardrails file begins with.
pub open spec fn file_heading() -> Seq<char> {
    "# Ralph Guardrails (Signs)\n\n"@
}

/// The section that puts a guardrail into a prompt.
pub open spec fn prompt_section(sign: SignView) -> Seq<char> {
    "## "@ + sign.title + "\n- **When**: "@ + sign.trigger + "\n- **Do**: "@ + sign.instruction
        + "\n- **Context**: "@ + sign.added_after + "\n\n"@
}

/// The sections of the first `n` guardrails, one after the other.
pub open spec fn prompt_sections(signs: Seq<SignView>, n: int) -> Seq<char>
    decreases n,
{
    if n <= 0 {
        Seq::empty()
    } else {
        prompt_sections(signs, n - 1) + prompt_section(signs[n - 1])
    }
}

/// What the beginning of the guardrails in a prompt says.
pub open spec fn prompt_heading() -> Seq<char> {
    "# Guardrails (Signs to Follow)\n\n"@
        + "The following guardrails were learned from previous iterations. Please follow them:\n\n"@
}

/// The text that puts guardrails into a prompt: nothing where there are
/// none, else a heading and a section for each.
pub open spec fn prompt_text(signs: Seq<SignView>) -> Seq<char> {
    if signs.len() == 0 {
        Seq::empty()
    } else {
        prompt_heading() + prompt_sections(signs, signs.len() as int)
    }
}

fn field_after(line: &Vec<char>, marker: &str) -> (text: Vec<char>)
    ensures
        text@ == field(line@, marker@),
{
    let marker_chars = chars_of(marker);
    let rest = stripped_start(line, &marker_chars);
    trimmed(&rest)
}

fn line_begins(line: &Vec<char>, marker: &str) -> (begins: bool)
    ensures
        begins == starts_with(line@, marker@),
{
    let marker_chars = chars_of(marker);
    begins_with(line, &marker_chars)
}

spec fn optional_chars(text: Option<Vec<char>>) -> Option<Seq<char>> {
    match text {
        Some(text) => Some(text@),
        None => None,
    }
}

/// The guardrails of one project directory.
#[derive(Debug, PartialEq, Eq)]
pub struct GuardrailManager {
    project_path: String,
}

impl GuardrailManager {
    /// The directory whose guardrails these are.
    pub closed spec fn spec_project_path(&self) -> Seq<char> {
        self.project_path@
    }

    pub fn new(project_path: String) -> (manager: GuardrailManager)
        ensures
            manager.spec_project_path() == project_path@,
    {
        GuardrailManager { project_path }
    }

    /// The directory whose guardrails these are.
    pub fn project_path(&self) -> (path: &str)
        ensures
            path@ == self.spec_project_path(),
    {
        self.project_path.as_str()
    }

    /// Where the guardrails file lies below the project directory.
    pub fn file_name() -> (name: &'static str)
        ensures
            name@ == ".ralph/guardrails.md"@,
    {
        ".ralph/guardrails.md"
    }

    /// Reads out of the text of a guardrails file what it says of each
    /// guardrail.
    pub fn parse_signs(content: &str) -> (signs: Vec<Sign>)
        ensures
            sign_views(signs@) == parsed_signs(content@),
    {
        let chars = chars_of(content);
        let lines = split_lines(&chars);
        let ghost texts = lines_of(content@);
        let mut signs: Vec<Sign> = Vec::new();
        let mut title: Option<Vec<char>> = None;
        let mut trigger: Option<Vec<char>> = None;
        let mut instruction: Option<Vec<char>> = None;
        let mut added_after: Option<Vec<char>> = None;
        let mut n: usize = 0;
        assert(sign_views(signs@) =~= signs_in(texts, 0));
        while n < lines.len()
            invariant
                n <= lines.len(),
                char_views(lines@) == texts,
                sign_views(signs@) == signs_in(texts, n as int),
                draft_at(texts, n as int) == (Draft {
                    title: optional_chars(title),
                    trigger: optional_chars(trigger),
                    instruction: optional_chars(instruction),
                    added_after: optional_chars(added_after),
                }),
            decreases lines.len() - n,
        {
            let line = &lines[n];
            assert(texts[n as int] == line@);
            if line_begins(line, "## Sign:") {
                let ghost before = sign_views(signs@);
                match (title, trigger, instruction, added_after) {
                    (Some(done_title), Some(done_trigger), Some(done_instruction), Some(done_after)) => {
                        let sign = Sign {
                            title: string_of(&done_title),
                            trigger: string_of(&done_trigger),
                            instruction: string_of(&done_instruction),
                            added_after: string_of(&done_after),
                        };
                        signs.push(sign);
                        assert(sign_views(signs@) =~= before.push(sign@));
                    },
                    _ => {},
                }
                title = Some(field_after(line, "## Sign:"));
                trigger = None;
                instruction = None;
                added_after = None;
            } else if line_begins(line, "- **Trigger**:") {
                trigger = Some(field_after(line, "- **Trigger**:"));
            } else if line_begins(line, "- **Instruction**:") {
                instruction = Some(field_after(line, "- **Instruction**:"));
            } else if line_begins(line, "- **Added after**:") {
                added_after = Some(field_after(line, "- **Added after**:"));
            }
            n += 1;
        }
        let ghost before = sign_views(signs@);
        match (title, trigger, instruction, added_after) {
            (Some(done_title), Some(done_trigger), Some(done_instruction), Some(done_after)) => {
                let sign = Sign {
                    title: string_of(&done_title),
                    trigger: string_of(&done_trigger),
                    instruction: string_of(&done_instruction),
                    added_after: string_of(&done_after),
                };
                signs.push(sign);
                assert(sign_views(signs@) =~= before.push(sign@));
            },
            _ => {},
        }
        signs
    }

    /// Reads the guardrails out of the text of a guardrails file. Each gets
    /// a random id of its own.
    pub fn parse_guardrails(&self, content: &str) -> (guardrails: Vec<Guardrail>)
        ensures
            signs_of(guardrails@) == parsed_signs(content@),
            forall|i: int|
                0 <= i < guardrails@.len() ==> is_random_id((#[trigger] guardrails@[i]).id@),
    {
        let mut signs = GuardrailManager::parse_signs(content);
        let ghost all = sign_views(signs@);
        let mut turned: Vec<Sign> = Vec::new();
        while signs.len() > 0
            invariant
                signs@.len() + turned@.len() == all.len(),
                forall|i: int| 0 <= i < signs@.len() ==> (#[trigger] signs@[i])@ == all[i],
                forall|i: int|
                    0 <= i < turned@.len() ==> (#[trigger] turned@[i])@ == all[all.len() - 1 - i],
            decreases signs.len(),
        {
            let sign = signs.pop().unwrap();
            turned.push(sign);
        }
        let mut guardrails: Vec<Guardrail> = Vec::new();
        while turned.len() > 0
            invariant
                guardrails@.len() + turned@.len() == all.len(),
                forall|i: int|
                    0 <= i < turned@.len() ==> (#[trigger] turned@[i])@ == all[all.len() - 1 - i],
                forall|i: int|
                    0 <= i < guardrails@.len() ==> sign_of(#[trigger] guardrails@[i]) == all[i],
                forall|i: int|
                    0 <= i < guardrails@.len() ==> is_random_id((#[trigger] guardrails@[i]).id@),
            decreases turned.len(),
        {
            let sign = turned.pop().unwrap();
            let guardrail = sign.with_id(fresh_id());
            guardrails.push(guardrail);
        }
        assert(signs_of(guardrails@) =~= all);
        guardrails
    }

    /// The guardrails as they are put into a prompt.
    pub fn format_for_prompt(&self, guardrails: &Vec<Guardrail>) -> (text: String)
        ensures
            text@ == prompt_text(signs_of(guardrails@)),
    {
        if guardrails.len() == 0 {
            return String::new();
        }
        let ghost signs = signs_of(guardrails@);
        let mut text = String::from_str("# Guardrails (Signs to Follow)\n\n");
        text.append(
            "The following guardrails were learned from previous iterations. Please follow them:\n\n",
        );
        assert(prompt_heading() + prompt_sections(signs, 0) =~= prompt_heading());
        let mut n: usize = 0;
        while n < guardrails.len()
            invariant
                n <= guardrails.len(),
                signs == signs_of(guardrails@),
                text@ == prompt_heading() + prompt_sections(signs, n as int),
            decreases guardrails.len() - n,
        {
            let guardrail = &guardrails[n];
            let ghost before = text@;
            text.append("## ");
            text.append(guardrail.title.as_str());
            text.append("\n- **When**: ");
            text.append(guardrail.trigger.as_str());
            text.append("\n- **Do**: ");
            text.append(guardrail.instruction.as_str());
            text.append("\n- **Context**: ");
            text.append(guardrail.added_after.as_str());
            text.append("\n\n");
            assert(text@ =~= before + prompt_section(signs[n as int]));
            assert(text@ =~= prompt_heading() + prompt_sections(signs, n + 1));
            n += 1;
        }
        text
    }

    /// The text of the guardrails file once `guardrail` is added: the text it
    /// had, or the heading of a new file, and then the guardrail's section.
    pub fn add_guardrail(&self, existing: Option<String>, guardrail: &Guardrail) -> (content:
        String)
        ensures
            content@ == match existing {
                Some(text) => text@,
                None => file_heading(),
            } + file_section(sign_of(*guardrail)),
    {
        let mut content = match existing {
            Some(text) => text,
            None => String::from_str("# Ralph Guardrails (Signs)\n\n"),
        };
        let ghost before = content@;
        content.append("\n## Sign: ");
        content.append(guardrail.title.as_str());
        content.append("\n\n- **Trigger**: ");
        content.append(guardrail.trigger.as_str());
        content.append("\n- **Instruction**: ");
        content.append(guardrail.instruction.as_str());
        content.append("\n- **Added after**: ");
        content.append(guardrail.added_after.as_str());
        content.append("\n\n");
        assert(content@ =~= before + file_section(sign_of(*guardrail)));
        content
    }
}

} // verus!
