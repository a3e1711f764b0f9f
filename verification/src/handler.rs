//! The command handler: validation, path resolution, and rendering.
//!
//! `plan_slash_command` checks the invocation (command name, presence of a
//! filename argument, presence of a workspace) and resolves the candidate
//! path under the workspace root. The host then looks the file up and reads
//! it; `render_document` turns the outcome of that read into the final
//! payload or error. All failures are plain descriptive strings.

use vstd::prelude::*;
use crate::file_type::{extension_of, file_extension, file_type_label, label_of};
use crate::prompt::{
    build_prompt,
    build_section_label,
    output_well_formed,
    prompt_text,
    SlashCommandArgumentCompletion,
    SlashCommandOutput,
    SlashCommandOutputSection,
};
use crate::strings::str_eq;

verus! {

/// The command name the handler recognizes.
pub open spec fn document_command() -> Seq<char> {
    "document"@
}

/// The error for a command name other than `document`.
pub open spec fn unknown_command_message(name: Seq<char>) -> Seq<char> {
    "Unknown command: "@ + name
}

/// The error for a `document` invocation without arguments.
pub open spec fn missing_argument_message() -> Seq<char> {
    "Please provide a filename, e.g., /document GameHeader.svelte"@
}

/// The error when no workspace is open.
pub open spec fn no_workspace_message() -> Seq<char> {
    "No workspace open"@
}

/// The error when the named file does not exist under the workspace root.
pub open spec fn file_not_found_message(filename: Seq<char>) -> Seq<char> {
    "File not found: "@ + filename
}

/// The error when the file exists but cannot be read as text.
pub open spec fn read_failed_message(reason: Seq<char>) -> Seq<char> {
    "Failed to read file: "@ + reason
}

/// `filename` appended to `root`, with a `/` between them unless `root`
/// already ends in one.
pub open spec fn joined_path(root: Seq<char>, filename: Seq<char>) -> Seq<char> {
    if root.len() > 0 && root.last() == '/' {
        root + filename
    } else {
        root + "/"@ + filename
    }
}

/// A validated `document` invocation: the filename as given, and the
/// candidate path it resolves to under the workspace root.
#[derive(Debug)]
pub struct DocumentRequest {
    pub filename: String,
    pub path: String,
}

/// What the host found when it looked the candidate path up and read it.
pub enum FileReadOutcome {
    /// No file exists at the path.
    Missing,
    /// The file exists but reading it as text failed, for the given reason.
    Unreadable(String),
    /// The file's full contents.
    Content(String),
}

/// Joins a filename onto the workspace root.
pub fn join_path(root: &str, filename: &str) -> (path: String)
    ensures
        path@ == joined_path(root@, filename@),
{
    let len = root.unicode_len();
    let mut path = String::from_str(root);
    if len == 0 || root.get_char(len - 1) != '/' {
        path.append("/");
    }
    path.append(filename);
    path
}

/// The slash-command handler. It holds no state: every invocation is an
/// independent request-to-response mapping.
pub struct AutoDocsExtension;

impl AutoDocsExtension {
    /// Creates the handler.
    pub fn new() -> AutoDocsExtension {
        AutoDocsExtension
    }

    /// Validates an invocation and resolves the file to document.
    ///
    /// The checks come in order: the command name must be `document`, a
    /// filename argument must be present, and a workspace must be open.
    /// Arguments past the first are ignored.
    pub fn plan_slash_command(
        &self,
        command_name: &str,
        args: &Vec<String>,
        workspace_root: &Option<String>,
    ) -> (r: Result<DocumentRequest, String>)
        ensures
            command_name@ != document_command() ==> (r matches Err(m) && m@
                == unknown_command_message(command_name@)),
            command_name@ == document_command() && args@.len() == 0 ==> (r matches Err(m) && m@
                == missing_argument_message()),
            command_name@ == document_command() && args@.len() > 0 ==> match workspace_root {
                None => r matches Err(m) && m@ == no_workspace_message(),
                Some(root) => r matches Ok(req) && req.filename@ == args@[0]@ && req.path@
                    == joined_path(root@, args@[0]@),
            },
    {
        if !str_eq(command_name, "document") {
            let mut message = String::from_str("Unknown command: ");
            message.append(command_name);
            return Err(message);
        }
        if args.len() == 0 {
            return Err(String::from_str(
                "Please provide a filename, e.g., /document GameHeader.svelte",
            ));
        }
        let filename = args[0].clone();
        match workspace_root {
            None => Err(String::from_str("No workspace open")),
            Some(root) => {
                let path = join_path(root.as_str(), filename.as_str());
                Ok(DocumentRequest { filename, path })
            },
        }
    }

    /// Turns the outcome of reading the resolved file into the final payload.
    ///
    /// A missing or unreadable file gives the corresponding error; contents
    /// give the rendered prompt, with one section spanning all of it.
    pub fn render_document(&self, filename: &str, outcome: FileReadOutcome) -> (r: Result<
        SlashCommandOutput,
        String,
    >)
        ensures
            match outcome {
                FileReadOutcome::Missing => r matches Err(m) && m@ == file_not_found_message(
                    filename@,
                ),
                FileReadOutcome::Unreadable(reason) => r matches Err(m) && m@
                    == read_failed_message(reason@),
                FileReadOutcome::Content(content) => r matches Ok(out) && out.text@ == prompt_text(
                    filename@,
                    label_of(extension_of(filename@)),
                    extension_of(filename@),
                    content@,
                ) && output_well_formed(out, filename@),
            },
    {
        match outcome {
            FileReadOutcome::Missing => {
                let mut message = String::from_str("File not found: ");
                message.append(filename);
                Err(message)
            },
            FileReadOutcome::Unreadable(reason) => {
                let mut message = String::from_str("Failed to read file: ");
                message.append(reason.as_str());
                Err(message)
            },
            FileReadOutcome::Content(content) => {
                let ext = file_extension(filename);
                let label = file_type_label(ext.as_str());
                let text = build_prompt(filename, label.as_str(), ext.as_str(), content.as_str());
                let end = text.as_str().len();
                let mut sections: Vec<SlashCommandOutputSection> = Vec::new();
                sections.push(
                    SlashCommandOutputSection {
                        start: 0,
                        end,
                        label: build_section_label(filename),
                    },
                );
                Ok(SlashCommandOutput { text, sections })
            },
        }
    }

    /// Offers completions for a command argument: there are none, for any
    /// command name and any partial arguments.
    pub fn complete_slash_command_argument(
        &self,
        _command_name: &str,
        _args: &Vec<String>,
    ) -> (r: Result<Vec<SlashCommandArgumentCompletion>, String>)
        ensures
            r matches Ok(completions) && completions@.len() == 0,
    {
        Ok(Vec::new())
    }
}

} // verus!
