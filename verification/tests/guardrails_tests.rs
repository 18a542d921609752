use ralph::guardrails::GuardrailManager;
use ralph::types::Guardrail;

#[test]
fn test_parse_guardrails() {
    let manager = GuardrailManager::new("/tmp/test".to_string());

    let content = r#"# Ralph Guardrails (Signs)

## Sign: Check imports before adding

- **Trigger**: Adding a new import statement
- **Instruction**: First verify import doesn't already exist
- **Added after**: Iteration 3 - duplicate import caused build failure

## Sign: Run tests before commit

- **Trigger**: About to commit code
- **Instruction**: Always run `npm test` first
- **Added after**: Iteration 5 - committed broken tests
"#;

    let guardrails = manager.parse_guardrails(content);
    assert_eq!(guardrails.len(), 2);
    assert_eq!(guardrails[0].title, "Check imports before adding");
    assert_eq!(guardrails[1].title, "Run tests before commit");
}

fn guardrail(title: &str, trigger: &str, instruction: &str, added_after: &str) -> Guardrail {
    Guardrail {
        id: "id".to_string(),
        title: title.to_string(),
        trigger: trigger.to_string(),
        instruction: instruction.to_string(),
        added_after: added_after.to_string(),
    }
}

#[test]
fn parsed_guardrails_carry_all_fields_and_fresh_ids() {
    let manager = GuardrailManager::new("/p".to_string());
    let content = "## Sign:   Title one  \r\n- **Trigger**: when\n- **Instruction**:do it\n- **Added after**:  after 3\n## Sign: two\n- **Trigger**: t2\n- **Instruction**: i2\n- **Added after**: a2";
    let found = manager.parse_guardrails(content);
    assert_eq!(found.len(), 2);
    assert_eq!(found[0].title, "Title one");
    assert_eq!(found[0].trigger, "when");
    assert_eq!(found[0].instruction, "do it");
    assert_eq!(found[0].added_after, "after 3");
    assert_eq!(found[1].title, "two");
    assert_eq!(found[1].added_after, "a2");
    for g in &found {
        assert_eq!(g.id.len(), 36);
        assert_eq!(g.id.chars().filter(|c| *c == '-').count(), 4);
        assert_eq!(g.id.chars().nth(14), Some('4'));
    }
    assert_ne!(found[0].id, found[1].id);
}

#[test]
fn incomplete_guardrails_are_left_out() {
    let manager = GuardrailManager::new("/p".to_string());
    let content = "- **Trigger**: stray\n## Sign: a\n- **Trigger**: t\n- **Instruction**: i\n## Sign: b\n- **Trigger**: t\n- **Instruction**: i\n- **Added after**: x\n## Sign: c\n";
    let found = manager.parse_guardrails(content);
    assert_eq!(found.len(), 1);
    assert_eq!(found[0].title, "b");
    assert!(manager.parse_guardrails("").is_empty());
    assert!(manager.parse_guardrails("no signs here\n\n").is_empty());
}

#[test]
fn repeated_markers_are_all_taken_off() {
    let manager = GuardrailManager::new("/p".to_string());
    let content = "## Sign:## Sign: twice\n- **Trigger**:- **Trigger**: t\n- **Instruction**: i\n- **Added after**: a\n";
    let found = manager.parse_guardrails(content);
    assert_eq!(found.len(), 1);
    assert_eq!(found[0].title, "twice");
    assert_eq!(found[0].trigger, "t");
}

#[test]
fn later_item_lines_replace_earlier_ones() {
    let manager = GuardrailManager::new("/p".to_string());
    let content = "## Sign: s\n- **Trigger**: one\n- **Trigger**: two\n- **Instruction**: i\n- **Added after**: a\n";
    let found = manager.parse_guardrails(content);
    assert_eq!(found.len(), 1);
    assert_eq!(found[0].trigger, "two");
}

#[test]
fn format_for_prompt_gives_exact_text() {
    let manager = GuardrailManager::new("/p".to_string());
    assert_eq!(manager.format_for_prompt(&vec![]), "");
    let text = manager.format_for_prompt(&vec![
        guardrail("Check imports", "Adding an import", "Look first", "Iteration 3"),
        guardrail("Run tests", "Committing", "npm test", "Iteration 5"),
    ]);
    assert_eq!(
        text,
        "# Guardrails (Signs to Follow)\n\nThe following guardrails were learned from previous iterations. Please follow them:\n\n## Check imports\n- **When**: Adding an import\n- **Do**: Look first\n- **Context**: Iteration 3\n\n## Run tests\n- **When**: Committing\n- **Do**: npm test\n- **Context**: Iteration 5\n\n"
    );
}

#[test]
fn add_guardrail_appends_a_section_that_parses_back() {
    let manager = GuardrailManager::new("/p".to_string());
    let g = guardrail("Check imports", "Adding an import", "Look first", "Iteration 3");
    let fresh = manager.add_guardrail(None, &g);
    assert_eq!(
        fresh,
        "# Ralph Guardrails (Signs)\n\n\n## Sign: Check imports\n\n- **Trigger**: Adding an import\n- **Instruction**: Look first\n- **Added after**: Iteration 3\n\n"
    );
    let h = guardrail("Second", "t", "i", "a");
    let both = manager.add_guardrail(Some(fresh.clone()), &h);
    assert!(both.starts_with(&fresh));
    let parsed = manager.parse_guardrails(&both);
    assert_eq!(parsed.len(), 2);
    assert_eq!(parsed[0].title, "Check imports");
    assert_eq!(parsed[0].trigger, "Adding an import");
    assert_eq!(parsed[1].title, "Second");
    assert_eq!(parsed[1].added_after, "a");
}

#[test]
fn manager_keeps_its_project_path() {
    let manager = GuardrailManager::new("/tmp/test".to_string());
    assert_eq!(manager.project_path(), "/tmp/test");
    assert_eq!(GuardrailManager::file_name(), ".ralph/guardrails.md");
}

use ralph::guardrails::Sign;

#[test]
fn signs_are_read_without_ids_and_take_the_id_they_are_given() {
    let signs = GuardrailManager::parse_signs("## Sign: a\n- **Trigger**: t\n- **Instruction**: i\n- **Added after**: x\n");
    assert_eq!(
        signs,
        vec![Sign {
            title: "a".to_string(),
            trigger: "t".to_string(),
            instruction: "i".to_string(),
            added_after: "x".to_string(),
        }]
    );
    let sign = Sign {
        title: "a".to_string(),
        trigger: "t".to_string(),
        instruction: "i".to_string(),
        added_after: "x".to_string(),
    };
    assert_eq!(
        sign.with_id("my-id".to_string()),
        Guardrail {
            id: "my-id".to_string(),
            title: "a".to_string(),
            trigger: "t".to_string(),
            instruction: "i".to_string(),
            added_after: "x".to_string(),
        }
    );
}

#[test]
fn guardrails_come_out_in_the_order_of_the_file() {
    let manager = GuardrailManager::new("/p".to_string());
    let mut content = String::new();
    for n in 0..7 {
        content.push_str(&format!("## Sign: s{}\n- **Trigger**: t{}\n- **Instruction**: i{}\n- **Added after**: a{}\n", n, n, n, n));
    }
    let found = manager.parse_guardrails(&content);
    assert_eq!(found.iter().map(|g| g.title.as_str()).collect::<Vec<_>>(), vec!["s0", "s1", "s2", "s3", "s4", "s5", "s6"]);
    assert_eq!(found[6].added_after, "a6");
}
