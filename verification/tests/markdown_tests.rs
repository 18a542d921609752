use ralph::markdown::parse_markdown_prd;
use ralph::text::{chars_of, hyphenate, parse_u32};
use ralph::types::{Prd, Story};

/// The same reading done with the string functions of std, to compare with.
fn scan_with_std(markdown: &str, project: &str, branch_name: Option<&str>) -> Result<Prd, String> {
    let mut lines = markdown.lines().peekable();
    let mut project_name = project.to_string();
    let mut description = String::new();
    let mut stories: Vec<Story> = Vec::new();

    while let Some(line) = lines.peek() {
        if line.starts_with("# ") {
            project_name = line.trim_start_matches("# ").trim().to_string();
            lines.next();
        } else if line.starts_with("## Problem Statement") || line.starts_with("## Description") {
            lines.next();
            while let Some(next) = lines.peek() {
                if next.starts_with("##") {
                    break;
                }
                if !next.is_empty() {
                    description.push_str(next);
                    description.push(' ');
                }
                lines.next();
            }
            break;
        } else {
            lines.next();
        }
    }
    for line in lines.by_ref() {
        if line.starts_with("## User Stories") || line.starts_with("## Stories") {
            break;
        }
    }
    let mut current: Option<Story> = None;
    let mut in_criteria = false;
    let mut criteria: Vec<String> = Vec::new();
    for line in lines {
        let t = line.trim();
        if t.starts_with("### ") && t.contains(':') {
            if let Some(mut story) = current.take() {
                story.acceptance_criteria = criteria.clone();
                stories.push(story);
                criteria.clear();
            }
            let parts: Vec<&str> = t.trim_start_matches("### ").splitn(2, ':').collect();
            if parts.len() == 2 {
                current = Some(Story {
                    id: parts[0].trim().to_string(),
                    title: parts[1].trim().to_string(),
                    description: String::new(),
                    acceptance_criteria: Vec::new(),
                    priority: stories.len() as u32 + 1,
                    passes: false,
                    notes: String::new(),
                });
                in_criteria = false;
            }
        } else if t.starts_with("**As a**") || t.starts_with("**I want**") || t.starts_with("**So that**") {
            if let Some(story) = current.as_mut() {
                if !story.description.is_empty() {
                    story.description.push(' ');
                }
                story.description.push_str(t.trim_start_matches("**").trim_end_matches("**"));
            }
        } else if t.starts_with("**Acceptance Criteria:**") {
            in_criteria = true;
        } else if t.starts_with("**Priority:**") && current.is_some() {
            if let Ok(priority) = t.trim_start_matches("**Priority:**").trim().parse::<u32>() {
                current.as_mut().unwrap().priority = priority;
            }
            in_criteria = false;
        } else if in_criteria && (t.starts_with("- [ ]") || t.starts_with("- [x]") || t.starts_with("-")) {
            let criterion = t
                .trim_start_matches("- [ ]")
                .trim_start_matches("- [x]")
                .trim_start_matches("-")
                .trim()
                .to_string();
            if !criterion.is_empty() {
                criteria.push(criterion);
            }
        } else if t.starts_with("**") {
            in_criteria = false;
        }
    }
    if let Some(mut story) = current {
        story.acceptance_criteria = criteria;
        stories.push(story);
    }
    if stories.is_empty() {
        return Err("No stories found in PRD markdown".to_string());
    }
    let branch = branch_name
        .map(|b| b.to_string())
        .unwrap_or_else(|| format!("ralph/{}", project_name.to_lowercase().replace(' ', "-")));
    Ok(Prd {
        project: project_name,
        branch_name: branch,
        description: description.trim().to_string(),
        stories,
    })
}

const FULL: &str = "# Todo App\n\n## Problem Statement\nPeople forget things.\n\nThey need lists.\n## Users\n- Everyone\n\n## User Stories\n\n### US-001: Add a task\n**As a** user\n**I want** to add a task\n**So that** I remember it\n\n**Acceptance Criteria:**\n- [ ] Task appears\n- [x] Typecheck passes\n- plain item\n\n**Priority:** 2\n**Dependencies:** None\n\n### US-002: Remove a task\n**As a** user\n**Acceptance Criteria:**\n- [ ] Task is gone\n**Notes:** later\n- not a criterion\n\n## Out of Scope\n- Sync\n";

#[test]
fn a_full_document_is_read() {
    let prd = parse_markdown_prd(FULL, "fallback", None).unwrap();
    assert_eq!(prd.project, "Todo App");
    assert_eq!(prd.branch_name, "ralph/todo-app");
    assert_eq!(prd.description, "People forget things. They need lists.");
    assert_eq!(
        prd.stories,
        vec![
            Story {
                id: "US-001".to_string(),
                title: "Add a task".to_string(),
                description: "As a** user I want** to add a task So that** I remember it".to_string(),
                acceptance_criteria: vec![
                    "Task appears".to_string(),
                    "Typecheck passes".to_string(),
                    "plain item".to_string(),
                ],
                priority: 2,
                passes: false,
                notes: String::new(),
            },
            Story {
                id: "US-002".to_string(),
                title: "Remove a task".to_string(),
                description: "As a** user".to_string(),
                acceptance_criteria: vec!["Task is gone".to_string()],
                priority: 2,
                passes: false,
                notes: String::new(),
            },
        ]
    );
}

#[test]
fn a_document_without_stories_is_refused() {
    for markdown in ["", "# Title\n", "# T\n## Description\ntext\n## User Stories\n", "## Stories\n### no colon here\n"] {
        assert_eq!(
            parse_markdown_prd(markdown, "p", None),
            Err("No stories found in PRD markdown".to_string()),
            "{:?}",
            markdown
        );
    }
    // without a description the heading of the stories is never reached
    assert_eq!(
        parse_markdown_prd("# T\n## User Stories\n### A: b\n", "p", None),
        Err("No stories found in PRD markdown".to_string())
    );
}

#[test]
fn the_branch_is_the_given_one_or_made_from_the_name() {
    let markdown = "## Description\nd\n## Stories\n### A: b\n";
    assert_eq!(parse_markdown_prd(markdown, "My Big Project", None).unwrap().branch_name, "ralph/my-big-project");
    assert_eq!(parse_markdown_prd(markdown, "My Big Project", None).unwrap().project, "My Big Project");
    assert_eq!(parse_markdown_prd(markdown, "x", Some("feature/y")).unwrap().branch_name, "feature/y");
    assert_eq!(
        parse_markdown_prd("# \u{c9}cole  Sup\n## Description\n## Stories\n### A: b", "x", None).unwrap().branch_name,
        "ralph/\u{e9}cole--sup"
    );
}

#[test]
fn reading_agrees_with_the_string_functions_of_std() {
    let documents = [
        FULL,
        "",
        "# T",
        "# T\n## Description\n## Stories\n### A: b",
        "# T\r\n## Problem Statement\r\nline one\r\n\r\nline two  \r\n## Stories\r\n### A : b : c \r\n**Priority:** 007\r\n",
        "## Description\n## User Stories\n### US-1: t\n**Priority:** +4\n### US-2: u\n**Priority:** -4\n### US-3: v\n**Priority:** 4294967296\n### US-4: w\n**Priority:** 4294967295\n### US-5: x\n**Priority:**\n",
        "## Description 2\ntext\n# not a title here\n##\n## Stories and more\n  ### ID:Title  \n  **As a** a **\n**I want****\n****So that** x\n**So that**",
        "## Description\n## Stories\n**Acceptance Criteria:**\n- early\n-\n- [ ]\n- [x] - [ ] nested\n### A: b\n- more\n**bold ends it\n- ignored\n### B: c\n**Acceptance Criteria:**\n--double\n- [ ]- [ ] twice\n",
        "# One\n# Two  \n## Description\nd\n## Stories\n### : empty id\n### :\n### ### ###  X: y\n###no space: z\n",
        "intro\n## Problem Statement extra\nfirst\n## Something\nskipped\n## Stories\n### A: b\n## Stories\n### C: d\n**Priority:** 9 \n**Priority:** nine\n",
        "## Description\nd\n\n## User Stories\n### A: b\n**Acceptance Criteria:** inline\n\t- [ ] tabbed\n* star item\n- \u{a0}nbsp trimmed\u{a0}\n**Priority:**3\n- after priority\n",
        "## Description\n## Stories\n### A: b\n**As a** x\n**Acceptance Criteria:**\n- c1\n### no colon\n- c2\n### D: e\n- c3\n",
    ];
    for markdown in documents {
        for branch in [None, Some("given")] {
            assert_eq!(
                parse_markdown_prd(markdown, "Fallback Name", branch),
                scan_with_std(markdown, "Fallback Name", branch),
                "{:?}",
                markdown
            );
        }
    }
}

#[test]
fn numbers_are_parsed_as_std_parses_them() {
    for s in ["", "0", "7", "007", "+7", "-7", "+", "++1", "1 ", " 1", "12a", "4294967295", "4294967296", "99999999999999999999", "\u{663}", "1_000", "0x10"] {
        assert_eq!(parse_u32(&chars_of(s)), s.parse::<u32>().ok(), "{:?}", s);
    }
}

#[test]
fn spaces_become_hyphens() {
    let replaced: String = hyphenate(&chars_of("a b  c\td")).iter().collect();
    assert_eq!(replaced, "a-b--c\td");
}

#[test]
fn the_branch_name_is_made_from_the_lower_case_name() {
    assert_eq!(ralph::markdown::branch_for("my todo app"), "ralph/my-todo-app");
    assert_eq!(ralph::markdown::branch_for(""), "ralph/");
}
