//! The documentation-request prompt and the output payload around it.
//!
//! The prompt is a fixed Markdown template: a heading naming the file, the
//! type label, a task list, and the file's contents verbatim inside a fenced
//! code block tagged with the raw extension. The payload carries the prompt
//! text together with a single section spanning all of it.

use vstd::prelude::*;
use vstd::utf8::encode_utf8;

verus! {

/// A labelled sub-range of the output text, in bytes.
#[derive(Debug)]
pub struct SlashCommandOutputSection {
    pub start: usize,
    pub end: usize,
    pub label: String,
}

/// The payload a successful command returns: the prompt text and its sections.
#[derive(Debug)]
pub struct SlashCommandOutput {
    pub text: String,
    pub sections: Vec<SlashCommandOutputSection>,
}

/// One suggestion offered while completing a command argument.
#[derive(Debug)]
pub struct SlashCommandArgumentCompletion {
    pub label: String,
    pub new_text: String,
    pub run_command: bool,
}

/// Everything in the prompt before the file contents: the headings, the task
/// list, and the opening of the fenced code block tagged with `ext`.
pub open spec fn prompt_prefix(filename: Seq<char>, file_type: Seq<char>, ext: Seq<char>) -> Seq<
    char,
> {
    "# Documentation Request for: "@ + filename + "\n\n**File Type:** "@ + file_type
        + "\n\n## Task\nPlease analyze this "@ + file_type
        + " and create comprehensive documentation including:\n\n1. **Purpose & Overview** - What does this file do?\n2. **Key Components** - Main functions, classes, or components\n3. **Props/Parameters** - If applicable (for components/functions)\n4. **Dependencies** - Important imports and their usage\n5. **Usage Examples** - How to use this in your project\n6. **State Management** - If applicable (for components)\n7. **Styling** - If Tailwind or CSS classes are used\n\n## Code to Document\n\n```"@
        + ext + "\n"@
}

/// Everything in the prompt after the file contents: the closing fence and
/// the final instruction.
pub open spec fn prompt_suffix() -> Seq<char> {
    "\n```\n\nPlease generate clear, well-structured Markdown documentation."@
}

/// The whole prompt: the file contents verbatim between prefix and suffix.
pub open spec fn prompt_text(
    filename: Seq<char>,
    file_type: Seq<char>,
    ext: Seq<char>,
    content: Seq<char>,
) -> Seq<char> {
    prompt_prefix(filename, file_type, ext) + content + prompt_suffix()
}

/// The label of the one section covering the whole prompt.
pub open spec fn section_label(filename: Seq<char>) -> Seq<char> {
    "📝 Documentation for "@ + filename
}

/// A well-formed payload: exactly one section, spanning the whole text in
/// bytes, labelled for `filename`.
pub open spec fn output_well_formed(out: SlashCommandOutput, filename: Seq<char>) -> bool {
    &&& out.sections@.len() == 1
    &&& out.sections@[0].start == 0
    &&& out.sections@[0].end == encode_utf8(out.text@).len() as usize
    &&& out.sections@[0].label@ == section_label(filename)
}

/// The prompt embeds the file contents unmodified: the characters of the
/// prompt from the end of the prefix on, for the length of the contents, are
/// the contents themselves.
pub proof fn lemma_prompt_embeds_content(
    filename: Seq<char>,
    file_type: Seq<char>,
    ext: Seq<char>,
    content: Seq<char>,
)
    ensures
        ({
            let text = prompt_text(filename, file_type, ext, content);
            let start = prompt_prefix(filename, file_type, ext).len();
            &&& start + content.len() <= text.len()
            &&& text.subrange(start as int, start + content.len() as int) == content
        }),
{
    let text = prompt_text(filename, file_type, ext, content);
    let start = prompt_prefix(filename, file_type, ext).len();
    assert(text.subrange(start as int, start + content.len() as int) =~= content);
}

/// Renders the prompt template around the file contents.
pub fn build_prompt(filename: &str, file_type: &str, ext: &str, content: &str) -> (text: String)
    ensures
        text@ == prompt_text(filename@, file_type@, ext@, content@),
{
    let mut text = String::from_str("# Documentation Request for: ");
    text.append(filename);
    text.append("\n\n**File Type:** ");
    text.append(file_type);
    text.append("\n\n## Task\nPlease analyze this ");
    text.append(file_type);
    text.append(
        " and create comprehensive documentation including:\n\n1. **Purpose & Overview** - What does this file do?\n2. **Key Components** - Main functions, classes, or components\n3. **Props/Parameters** - If applicable (for components/functions)\n4. **Dependencies** - Important imports and their usage\n5. **Usage Examples** - How to use this in your project\n6. **State Management** - If applicable (for components)\n7. **Styling** - If Tailwind or CSS classes are used\n\n## Code to Document\n\n```",
    );
    text.append(ext);
    text.append("\n");
    text.append(content);
    text.append("\n```\n\nPlease generate clear, well-structured Markdown documentation.");
    proof {
        assert(text@ =~= prompt_text(filename@, file_type@, ext@, content@));
    }
    text
}

/// Builds the label of the one output section.
pub fn build_section_label(filename: &str) -> (label: String)
    ensures
        label@ == section_label(filename@),
{
    let mut label = String::from_str("📝 Documentation for ");
    label.append(filename);
    label
}

} // verus!
