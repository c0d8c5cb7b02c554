//! Extraction of embedded code blocks from text.
//!
//! Three shapes are recognized: blocks fenced with backticks, blocks fenced
//! with tildes, and runs of lines indented by four spaces or a tab. A fence
//! closes a block only at the start of a line, so code may hold fence
//! characters inside a line. The
//! shapes are regular expressions matched by the `regex` crate; what is made
//! of the matches is decided here.

use crate::error::{RLMError, RLMResult};
use crate::text::{
    from_chars, is_text, join, join_lines, lines_of, lowercase_of, split_lines, to_chars,
    to_lowercase, trim, trimmed, views,
};
use vstd::prelude::*;
use vstd::string::StringExecFns;

verus! {

/// A block fenced with three backticks: the rest of the opening line is the
/// language, what follows up to the next fence at the start of a line is the
/// code.
pub const MARKDOWN_FENCE: &'static str = "(?m)```([^\\n]*)\\n([\\s\\S]*?)^```";

/// A block fenced with three tildes.
pub const TILDE_FENCE: &'static str = "(?m)~~~([^\\n]*)\\n([\\s\\S]*?)^~~~";

/// A run of lines that each start with four spaces or a tab.
pub const INDENTED_CODE: &'static str =
    "(?:^|\\n)((?:    |\\t)[^\\n]*(?:\\n(?:    |\\t)[^\\n]*)*)";

/// A piece of code with the language it is written in.
#[derive(Debug, Clone)]
pub struct CodeBlock {
    pub language: String,
    pub code: String,
}

/// The texts of a match: for each capture group after the whole match, what
/// it captured, if it took part.
pub type GroupTexts = Seq<Option<Seq<char>>>;

/// The capture groups of all non-overlapping matches of the regular
/// expression `pattern` in `text`, leftmost first, as the `regex` crate
/// finds them; `None` if `pattern` is not a regular expression it accepts.
pub uninterp spec fn regex_groups(pattern: Seq<char>, text: Seq<char>) -> Option<Seq<GroupTexts>>;

/// The texts of one match.
pub open spec fn group_texts(m: Vec<Option<String>>) -> GroupTexts {
    Seq::new(
        m@.len(),
        |i: int|
            match m@[i] {
                Some(s) => Some(s@),
                None => None,
            },
    )
}

/// The texts of a list of matches.
pub open spec fn match_texts(ms: Seq<Vec<Option<String>>>) -> Seq<GroupTexts> {
    Seq::new(ms.len(), |i: int| group_texts(ms[i]))
}

/// `Regex::new`, `Regex::captures_iter`, `Captures::get` and `Match::as_str`
/// of the `regex` crate: compiles `pattern` and lists, for each match in
/// `text`, the text of every capture group after group zero. The result
/// depends on the two texts alone.
#[verifier::external_body]
fn capture_groups(pattern: &str, text: &str) -> (r: Option<Vec<Vec<Option<String>>>>)
    ensures
        match r {
            Some(ms) => regex_groups(pattern@, text@) == Some(match_texts(ms@)),
            None => regex_groups(pattern@, text@) is None,
        },
{
    match regex::Regex::new(pattern) {
        Ok(re) => Some(
            re.captures_iter(text).map(
                |c| (1..c.len()).map(|i| c.get(i).map(|m| m.as_str().to_string())).collect(),
            ).collect(),
        ),
        Err(_) => None,
    }
}

/// `lang` is one of the accepted language names or aliases.
pub open spec fn is_supported(lang: Seq<char>) -> bool {
    ||| lang == "python"@
    ||| lang == "py"@
    ||| lang == "python3"@
    ||| lang == "python2"@
    ||| lang == "rust"@
    ||| lang == "rs"@
    ||| lang == "java"@
    ||| lang == "javascript"@
    ||| lang == "js"@
    ||| lang == "bash"@
    ||| lang == "sh"@
    ||| lang == "shell"@
}

/// The standard name that a lowercase language name or alias stands for.
pub open spec fn standard_language(lower: Seq<char>) -> Option<Seq<char>> {
    if lower == "python"@ || lower == "py"@ || lower == "python3"@ || lower == "python2"@ {
        Some("python"@)
    } else if lower == "rust"@ || lower == "rs"@ {
        Some("rust"@)
    } else if lower == "java"@ {
        Some("java"@)
    } else if lower == "javascript"@ || lower == "js"@ {
        Some("javascript"@)
    } else if lower == "bash"@ || lower == "sh"@ || lower == "shell"@ {
        Some("bash"@)
    } else {
        None
    }
}

/// The standard name of a language: aliases map to their language, other
/// names to their lowercase form.
pub open spec fn normalized(raw: Seq<char>) -> Seq<char> {
    match standard_language(lowercase_of(trimmed(raw))) {
        Some(name) => name,
        None => lowercase_of(raw),
    }
}

/// The standard name that the lowercase language name or alias `lower`
/// stands for, if it is one.
pub fn standard_name(lower: &str) -> (name: Option<String>)
    ensures
        match name {
            Some(n) => standard_language(lower@) == Some(n@),
            None => standard_language(lower@) is None,
        },
{
    let l = to_chars(lower);
    if is_text(l.as_slice(), "python") || is_text(l.as_slice(), "py") || is_text(
        l.as_slice(),
        "python3",
    ) || is_text(l.as_slice(), "python2") {
        Some(String::from_str("python"))
    } else if is_text(l.as_slice(), "rust") || is_text(l.as_slice(), "rs") {
        Some(String::from_str("rust"))
    } else if is_text(l.as_slice(), "java") {
        Some(String::from_str("java"))
    } else if is_text(l.as_slice(), "javascript") || is_text(l.as_slice(), "js") {
        Some(String::from_str("javascript"))
    } else if is_text(l.as_slice(), "bash") || is_text(l.as_slice(), "sh") || is_text(
        l.as_slice(),
        "shell",
    ) {
        Some(String::from_str("bash"))
    } else {
        None
    }
}

/// The block that a fenced match gives: none unless both groups took part
/// and the trimmed, lowercased language is supported.
pub open spec fn fence_block(m: GroupTexts) -> Option<(Seq<char>, Seq<char>)> {
    if m.len() >= 2 && m[0] is Some && m[1] is Some {
        let language = lowercase_of(trimmed(m[0]->0));
        if is_supported(language) {
            Some((normalized(language), trimmed(m[1]->0)))
        } else {
            None
        }
    } else {
        None
    }
}

/// A line without its indentation of four spaces or one tab.
pub open spec fn dedent_line(line: Seq<char>) -> Seq<char> {
    if line.len() >= 4 && line[0] == ' ' && line[1] == ' ' && line[2] == ' ' && line[3] == ' ' {
        line.skip(4)
    } else if line.len() >= 1 && line[0] == '\t' {
        line.skip(1)
    } else {
        line
    }
}

/// Every line of `lines` dedented.
pub open spec fn dedent_all(lines: Seq<Seq<char>>) -> Seq<Seq<char>> {
    Seq::new(lines.len(), |i: int| dedent_line(lines[i]))
}

/// The block that an indented match gives: its lines dedented, taken as
/// Python.
pub open spec fn indented_block(m: GroupTexts) -> Option<(Seq<char>, Seq<char>)> {
    if m.len() >= 1 && m[0] is Some {
        Some(("python"@, trimmed(join_lines(dedent_all(lines_of(m[0]->0))))))
    } else {
        None
    }
}

/// The blocks of the first `n` matches under `shape`, in order.
pub open spec fn blocks_of(
    ms: Seq<GroupTexts>,
    shape: spec_fn(GroupTexts) -> Option<(Seq<char>, Seq<char>)>,
    n: int,
) -> Seq<(Seq<char>, Seq<char>)>
    decreases n,
{
    if n <= 0 {
        seq![]
    } else {
        let rest = blocks_of(ms, shape, n - 1);
        match shape(ms[n - 1]) {
            Some(b) => rest.push(b),
            None => rest,
        }
    }
}

/// Language and code of each block.
pub open spec fn block_texts(blocks: Seq<CodeBlock>) -> Seq<(Seq<char>, Seq<char>)> {
    Seq::new(blocks.len(), |i: int| (blocks[i].language@, blocks[i].code@))
}

/// All blocks of a text given the matches of the three shapes: backtick
/// fences first, then tilde fences, then indented runs.
pub open spec fn extracted(
    markdown: Seq<GroupTexts>,
    tilde: Seq<GroupTexts>,
    indented: Seq<GroupTexts>,
) -> Seq<(Seq<char>, Seq<char>)> {
    blocks_of(markdown, |m: GroupTexts| fence_block(m), markdown.len() as int) + blocks_of(
        tilde,
        |m: GroupTexts| fence_block(m),
        tilde.len() as int,
    ) + blocks_of(indented, |m: GroupTexts| indented_block(m), indented.len() as int)
}

fn supported(lang: &Vec<char>) -> (b: bool)
    ensures
        b == is_supported(lang@),
{
    is_text(lang.as_slice(), "python") || is_text(lang.as_slice(), "py") || is_text(lang.as_slice(), "python3") || is_text(lang.as_slice(), "python2",
    ) || is_text(lang.as_slice(), "rust") || is_text(lang.as_slice(), "rs") || is_text(lang.as_slice(), "java") || is_text(lang.as_slice(), "javascript",
    ) || is_text(lang.as_slice(), "js") || is_text(lang.as_slice(), "bash") || is_text(lang.as_slice(), "sh") || is_text(lang.as_slice(), "shell",
    )
}

fn lower_trimmed(raw: &str) -> (l: Vec<char>)
    ensures
        l@ == lowercase_of(trimmed(raw@)),
{
    let chars = to_chars(raw);
    let t = trim(chars.as_slice());
    let ts = from_chars(t.as_slice());
    let lower = to_lowercase(ts.as_str());
    to_chars(lower.as_str())
}

fn dedent(line: &Vec<char>) -> (out: Vec<char>)
    ensures
        out@ == dedent_line(line@),
{
    let skip: usize = if line.len() >= 4 && line[0] == ' ' && line[1] == ' ' && line[2] == ' '
        && line[3] == ' ' {
        4
    } else if line.len() >= 1 && line[0] == '\t' {
        1
    } else {
        0
    };
    let mut out: Vec<char> = Vec::new();
    let mut i: usize = skip;
    while i < line.len()
        invariant
            skip <= i <= line@.len(),
            out@ == line@.subrange(skip as int, i as int),
        decreases line@.len() - i,
    {
        out.push(line[i]);
        proof {
            assert(line@.subrange(skip as int, i + 1) =~= line@.subrange(
                skip as int,
                i as int,
            ).push(line@[i as int]));
        }
        i += 1;
    }
    proof {
        assert(line@.subrange(skip as int, line@.len() as int) =~= line@.skip(skip as int));
        assert(line@.skip(0) =~= line@);
    }
    out
}

/// Finds the code blocks embedded in a text.
#[derive(Debug, Clone, Copy)]
pub struct CodeBlockParser {}

impl CodeBlockParser {
    /// A parser for the three shapes.
    pub fn new() -> CodeBlockParser {
        CodeBlockParser {  }
    }

    /// Whether `lang` is an accepted language name or alias.
    pub fn is_supported_language(&self, lang: &str) -> (b: bool)
        ensures
            b == is_supported(lang@),
    {
        let l = to_chars(lang);
        supported(&l)
    }

    /// The standard name of a language.
    pub fn normalize_language(&self, raw: &str) -> (name: String)
        ensures
            name@ == normalized(raw@),
    {
        let l = lower_trimmed(raw);
        let lower = from_chars(l.as_slice());
        match standard_name(lower.as_str()) {
            Some(name) => name,
            None => to_lowercase(raw),
        }
    }

    /// The standard name of the language that `hint` names, if it is
    /// supported.
    pub fn detect_language(&self, hint: &str) -> (name: Option<String>)
        ensures
            match name {
                Some(n) => is_supported(lowercase_of(trimmed(hint@))) && n@ == normalized(
                    lowercase_of(trimmed(hint@)),
                ),
                None => !is_supported(lowercase_of(trimmed(hint@))),
            },
    {
        let l = lower_trimmed(hint);
        if supported(&l) {
            let s = from_chars(l.as_slice());
            Some(self.normalize_language(s.as_str()))
        } else {
            None
        }
    }

    fn fence(&self, m: &Vec<Option<String>>) -> (b: Option<CodeBlock>)
        ensures
            match b {
                Some(block) => fence_block(group_texts(*m)) == Some((block.language@, block.code@)),
                None => fence_block(group_texts(*m)) is None,
            },
    {
        if m.len() < 2 {
            return None;
        }
        match (&m[0], &m[1]) {
            (Some(lang), Some(code)) => {
                let language = lower_trimmed(lang.as_str());
                if supported(&language) {
                    let name = from_chars(language.as_slice());
                    let chars = to_chars(code.as_str());
                    let body = trim(chars.as_slice());
                    Some(
                        CodeBlock {
                            language: self.normalize_language(name.as_str()),
                            code: from_chars(body.as_slice()),
                        },
                    )
                } else {
                    None
                }
            },
            _ => None,
        }
    }

    fn indented(&self, m: &Vec<Option<String>>) -> (b: Option<CodeBlock>)
        ensures
            match b {
                Some(block) => indented_block(group_texts(*m)) == Some(
                    (block.language@, block.code@),
                ),
                None => indented_block(group_texts(*m)) is None,
            },
    {
        if m.len() < 1 {
            return None;
        }
        match &m[0] {
            Some(code) => {
                let chars = to_chars(code.as_str());
                let lines = split_lines(chars.as_slice());
                let mut plain: Vec<Vec<char>> = Vec::new();
                let mut i: usize = 0;
                while i < lines.len()
                    invariant
                        i <= lines@.len(),
                        plain@.len() == i,
                        forall|k: int|
                            0 <= k < i ==> (#[trigger] plain@[k])@ == dedent_line(lines@[k]@),
                    decreases lines@.len() - i,
                {
                    plain.push(dedent(&lines[i]));
                    i += 1;
                }
                proof {
                    assert(views(plain@) =~= dedent_all(views(lines@)));
                }
                let joined = join(&plain);
                let body = trim(joined.as_slice());
                Some(
                    CodeBlock {
                        language: String::from_str("python"),
                        code: from_chars(body.as_slice()),
                    },
                )
            },
            None => None,
        }
    }

    /// The blocks that the matches of a fence shape give, in order.
    pub fn blocks_from_fences(&self, matches: &Vec<Vec<Option<String>>>) -> (blocks: Vec<
        CodeBlock,
    >)
        ensures
            block_texts(blocks@) == blocks_of(
                match_texts(matches@),
                |m: GroupTexts| fence_block(m),
                matches@.len() as int,
            ),
    {
        let ghost shape = |m: GroupTexts| fence_block(m);
        let mut blocks: Vec<CodeBlock> = Vec::new();
        let mut i: usize = 0;
        while i < matches.len()
            invariant
                i <= matches@.len(),
                shape == |m: GroupTexts| fence_block(m),
                block_texts(blocks@) == blocks_of(match_texts(matches@), shape, i as int),
            decreases matches@.len() - i,
        {
            let ghost before = block_texts(blocks@);
            match self.fence(&matches[i]) {
                Some(b) => {
                    blocks.push(b);
                    proof {
                        assert(block_texts(blocks@) =~= before.push((b.language@, b.code@)));
                    }
                },
                None => {},
            }
            i += 1;
        }
        blocks
    }

    /// The blocks that the matches of the indented shape give, in order.
    pub fn blocks_from_indented(&self, matches: &Vec<Vec<Option<String>>>) -> (blocks: Vec<
        CodeBlock,
    >)
        ensures
            block_texts(blocks@) == blocks_of(
                match_texts(matches@),
                |m: GroupTexts| indented_block(m),
                matches@.len() as int,
            ),
    {
        let ghost shape = |m: GroupTexts| indented_block(m);
        let mut blocks: Vec<CodeBlock> = Vec::new();
        let mut i: usize = 0;
        while i < matches.len()
            invariant
                i <= matches@.len(),
                shape == |m: GroupTexts| indented_block(m),
                block_texts(blocks@) == blocks_of(match_texts(matches@), shape, i as int),
            decreases matches@.len() - i,
        {
            let ghost before = block_texts(blocks@);
            match self.indented(&matches[i]) {
                Some(b) => {
                    blocks.push(b);
                    proof {
                        assert(block_texts(blocks@) =~= before.push((b.language@, b.code@)));
                    }
                },
                None => {},
            }
            i += 1;
        }
        blocks
    }

    /// All code blocks of `text`: backtick fences first, then tilde fences,
    /// then indented runs. Fails only if a shape is not accepted as a
    /// regular expression.
    pub fn extract_from(&self, text: &str) -> (r: RLMResult<Vec<CodeBlock>>)
        ensures
            match r {
                Ok(blocks) => {
                    &&& regex_groups(MARKDOWN_FENCE@, text@) is Some
                    &&& regex_groups(TILDE_FENCE@, text@) is Some
                    &&& regex_groups(INDENTED_CODE@, text@) is Some
                    &&& block_texts(blocks@) == extracted(
                        regex_groups(MARKDOWN_FENCE@, text@)->0,
                        regex_groups(TILDE_FENCE@, text@)->0,
                        regex_groups(INDENTED_CODE@, text@)->0,
                    )
                },
                Err(e) => {
                    &&& e is InternalError
                    &&& (regex_groups(MARKDOWN_FENCE@, text@) is None || regex_groups(
                        TILDE_FENCE@,
                        text@,
                    ) is None || regex_groups(INDENTED_CODE@, text@) is None)
                },
            },
    {
        let markdown = capture_groups(MARKDOWN_FENCE, text);
        let tilde = capture_groups(TILDE_FENCE, text);
        let indented = capture_groups(INDENTED_CODE, text);
        match (markdown, tilde, indented) {
            (Some(m), Some(t), Some(i)) => {
                let mut blocks = self.blocks_from_fences(&m);
                let mut second = self.blocks_from_fences(&t);
                let mut third = self.blocks_from_indented(&i);
                let ghost a = block_texts(blocks@);
                let ghost b = block_texts(second@);
                let ghost c = block_texts(third@);
                blocks.append(&mut second);
                proof {
                    assert(block_texts(blocks@) =~= a + b);
                }
                blocks.append(&mut third);
                proof {
                    assert(block_texts(blocks@) =~= a + b + c);
                }
                Ok(blocks)
            },
            _ => Err(RLMError::internal("code block pattern rejected")),
        }
    }
}

impl Default for CodeBlockParser {
    fn default() -> CodeBlockParser {
        CodeBlockParser::new()
    }
}

} // verus!
