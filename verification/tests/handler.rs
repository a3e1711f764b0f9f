use auto_docs::handler::{AutoDocsExtension, FileReadOutcome};

fn ext() -> AutoDocsExtension {
    AutoDocsExtension::new()
}

fn root() -> Option<String> {
    Some("/workspace".to_string())
}

#[test]
fn unknown_command_reports_the_name() {
    let r = ext().plan_slash_command("explain", &vec!["a.rs".to_string()], &root());
    assert_eq!(r.unwrap_err(), "Unknown command: explain");
}

#[test]
fn unknown_command_wins_over_other_checks() {
    let r = ext().plan_slash_command("doc", &vec![], &None);
    assert_eq!(r.unwrap_err(), "Unknown command: doc");
}

#[test]
fn missing_argument_message_is_fixed() {
    let r = ext().plan_slash_command("document", &vec![], &root());
    assert_eq!(
        r.unwrap_err(),
        "Please provide a filename, e.g., /document GameHeader.svelte"
    );
}

#[test]
fn missing_argument_checked_before_workspace() {
    let r = ext().plan_slash_command("document", &vec![], &None);
    assert_eq!(
        r.unwrap_err(),
        "Please provide a filename, e.g., /document GameHeader.svelte"
    );
}

#[test]
fn no_workspace_regardless_of_arguments() {
    let args = vec!["a.rs".to_string(), "extra".to_string()];
    let r = ext().plan_slash_command("document", &args, &None);
    assert_eq!(r.unwrap_err(), "No workspace open");
}

#[test]
fn plan_resolves_path_under_root() {
    let args = vec!["src/a.rs".to_string(), "ignored".to_string()];
    let r = ext().plan_slash_command("document", &args, &root()).unwrap();
    assert_eq!(r.filename, "src/a.rs");
    assert_eq!(r.path, "/workspace/src/a.rs");
}

#[test]
fn plan_keeps_a_trailing_slash_on_the_root() {
    let args = vec!["a.rs".to_string()];
    let r = ext()
        .plan_slash_command("document", &args, &Some("/workspace/".to_string()))
        .unwrap();
    assert_eq!(r.path, "/workspace/a.rs");
}

#[test]
fn file_not_found_names_the_file() {
    let r = ext().render_document("missing.txt", FileReadOutcome::Missing);
    assert_eq!(r.unwrap_err(), "File not found: missing.txt");
}

#[test]
fn read_failure_carries_the_reason() {
    let outcome = FileReadOutcome::Unreadable("stream did not contain valid UTF-8".to_string());
    let r = ext().render_document("a.rs", outcome);
    assert_eq!(
        r.unwrap_err(),
        "Failed to read file: stream did not contain valid UTF-8"
    );
}

#[test]
fn rust_file_is_classified_and_fenced() {
    let outcome = FileReadOutcome::Content("fn main() {}".to_string());
    let out = ext().render_document("Foo.rs", outcome).unwrap();
    assert!(out.text.contains("**File Type:** Rust"));
    assert!(out.text.contains("```rs\n"));
    assert!(out.text.contains("```rs\nfn main() {}\n```"));
}

#[test]
fn unlisted_extension_gets_the_default_label() {
    let outcome = FileReadOutcome::Content("whatever".to_string());
    let out = ext().render_document("notes.xyz", outcome).unwrap();
    assert!(out.text.contains("**File Type:** code file"));
    assert!(out.text.contains("```xyz\n"));
}

#[test]
fn output_text_matches_the_template_exactly() {
    let outcome = FileReadOutcome::Content("print(1)\n".to_string());
    let out = ext().render_document("tool.py", outcome).unwrap();
    let expected = format!(
        "# Documentation Request for: {}\n\n\
        **File Type:** {}\n\n\
        ## Task\n\
        Please analyze this {} and create comprehensive documentation including:\n\n\
        1. **Purpose & Overview** - What does this file do?\n\
        2. **Key Components** - Main functions, classes, or components\n\
        3. **Props/Parameters** - If applicable (for components/functions)\n\
        4. **Dependencies** - Important imports and their usage\n\
        5. **Usage Examples** - How to use this in your project\n\
        6. **State Management** - If applicable (for components)\n\
        7. **Styling** - If Tailwind or CSS classes are used\n\n\
        ## Code to Document\n\n\
        ```{}\n\
        {}\n\
        ```\n\n\
        Please generate clear, well-structured Markdown documentation.",
        "tool.py", "Python", "Python", "py", "print(1)\n"
    );
    assert_eq!(out.text, expected);
}

#[test]
fn one_section_spans_the_whole_text() {
    let outcome = FileReadOutcome::Content("fn main() {}".to_string());
    let out = ext().render_document("Foo.rs", outcome).unwrap();
    assert_eq!(out.sections.len(), 1);
    assert_eq!(out.sections[0].start, 0);
    assert_eq!(out.sections[0].end, out.text.len());
    assert_eq!(out.sections[0].label, "\u{1F4DD} Documentation for Foo.rs");
}

#[test]
fn section_end_counts_bytes_of_multibyte_content() {
    let outcome = FileReadOutcome::Content("let prix = \"100\u{20AC}\";".to_string());
    let out = ext().render_document("shop.ts", outcome).unwrap();
    assert_eq!(out.sections.len(), 1);
    assert_eq!(out.sections[0].end, out.text.len());
    assert!(out.text.len() > out.text.chars().count());
}

#[test]
fn completion_is_always_empty() {
    let args = vec!["partial".to_string()];
    let r = ext().complete_slash_command_argument("document", &args);
    assert!(r.unwrap().is_empty());
    let r = ext().complete_slash_command_argument("other", &vec![]);
    assert!(r.unwrap().is_empty());
    let r = ext().complete_slash_command_argument("document", &vec![]);
    assert!(r.unwrap().is_empty());
}

#[test]
fn content_survives_the_round_trip_unmodified() {
    let content = "const QUUX: u32 = 0xD0C5; // one-of-a-kind marker".to_string();
    let outcome = FileReadOutcome::Content(content.clone());
    let out = ext().render_document("gen.xyzzy", outcome).unwrap();
    let open = "```xyzzy\n";
    let fence_start = out.text.find(open).unwrap() + open.len();
    let fence_end = out.text.rfind("\n```").unwrap();
    assert_eq!(&out.text[fence_start..fence_end], content);
    assert_eq!(out.text.matches(&content).count(), 1);
}
