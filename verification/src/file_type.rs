//! Classifying a file by the extension of its name.
//!
//! The extension is the part of the final path component after its last `.`;
//! a name without a dot in its final component has the empty extension. A
//! fixed table maps known extensions to a human-readable label; everything
//! else, the empty extension included, is labelled `code file`.

use vstd::prelude::*;
use crate::strings::str_eq;

verus! {

/// Scans `s` from the end, `acc` being the characters already passed over:
/// the extension is `acc` at the first `.`, and empty if a `/` or the start
/// of the string comes first.
pub open spec fn extension_scan(s: Seq<char>, acc: Seq<char>) -> Seq<char>
    decreases s.len(),
{
    if s.len() == 0 {
        Seq::empty()
    } else if s.last() == '/' {
        Seq::empty()
    } else if s.last() == '.' {
        acc
    } else {
        extension_scan(s.drop_last(), seq![s.last()] + acc)
    }
}

/// The extension of the final path component of `name`.
pub open spec fn extension_of(name: Seq<char>) -> Seq<char> {
    extension_scan(name, Seq::empty())
}

/// The display label for a file extension.
pub open spec fn label_of(ext: Seq<char>) -> Seq<char> {
    if ext == "svelte"@ {
        "Svelte component"@
    } else if ext == "ts"@ {
        "TypeScript"@
    } else if ext == "tsx"@ {
        "TypeScript (React)"@
    } else if ext == "js"@ {
        "JavaScript"@
    } else if ext == "jsx"@ {
        "JavaScript (React)"@
    } else if ext == "py"@ {
        "Python"@
    } else if ext == "rs"@ {
        "Rust"@
    } else if ext == "go"@ {
        "Go"@
    } else if ext == "java"@ {
        "Java"@
    } else {
        "code file"@
    }
}

/// Any extension outside the fixed table gets the default label.
pub proof fn lemma_unlisted_extension_label(ext: Seq<char>)
    requires
        ext != "svelte"@,
        ext != "ts"@,
        ext != "tsx"@,
        ext != "js"@,
        ext != "jsx"@,
        ext != "py"@,
        ext != "rs"@,
        ext != "go"@,
        ext != "java"@,
    ensures
        label_of(ext) == "code file"@,
{
}

/// Extracts the extension of the final path component of `name`.
pub fn file_extension(name: &str) -> (ext: String)
    ensures
        ext@ == extension_of(name@),
{
    let len = name.unicode_len();
    let mut i: usize = len;
    proof {
        assert(name@.subrange(0, len as int) =~= name@);
        assert(name@.subrange(len as int, len as int) =~= Seq::<char>::empty());
    }
    while i > 0
        invariant
            i <= len,
            len == name@.len(),
            extension_of(name@) == extension_scan(
                name@.subrange(0, i as int),
                name@.subrange(i as int, len as int),
            ),
        decreases i,
    {
        let c = name.get_char(i - 1);
        if c == '/' {
            return String::new();
        }
        if c == '.' {
            let rest = name.substring_char(i, len);
            return String::from_str(rest);
        }
        proof {
            assert(name@.subrange(0, i as int).drop_last() =~= name@.subrange(0, i - 1));
            assert(seq![name@[i - 1]] + name@.subrange(i as int, len as int) =~= name@.subrange(
                i - 1,
                len as int,
            ));
        }
        i = i - 1;
    }
    proof {
        assert(name@.subrange(0, 0) =~= Seq::<char>::empty());
    }
    String::new()
}

/// Looks an extension up in the fixed table.
pub fn file_type_label(ext: &str) -> (label: String)
    ensures
        label@ == label_of(ext@),
{
    if str_eq(ext, "svelte") {
        String::from_str("Svelte component")
    } else if str_eq(ext, "ts") {
        String::from_str("TypeScript")
    } else if str_eq(ext, "tsx") {
        String::from_str("TypeScript (React)")
    } else if str_eq(ext, "js") {
        String::from_str("JavaScript")
    } else if str_eq(ext, "jsx") {
        String::from_str("JavaScript (React)")
    } else if str_eq(ext, "py") {
        String::from_str("Python")
    } else if str_eq(ext, "rs") {
        String::from_str("Rust")
    } else if str_eq(ext, "go") {
        String::from_str("Go")
    } else if str_eq(ext, "java") {
        String::from_str("Java")
    } else {
        String::from_str("code file")
    }
}

} // verus!
