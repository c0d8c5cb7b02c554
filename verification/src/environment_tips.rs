//! Prompt augmentation with what is known of the execution environment.

use crate::string_map::{value_of, with_entry, StringMap};
use crate::text::{extend_chars, from_chars, to_chars};
use vstd::prelude::*;
use vstd::string::StringExecFns;

verus! {

/// One line of a section: `- key: value`, or `- **key**: value` in bold.
pub open spec fn entry_line(key: Seq<char>, value: Seq<char>, bold: bool) -> Seq<char> {
    if bold {
        "- **"@ + key + "**: "@ + value + "\n"@
    } else {
        "- "@ + key + ": "@ + value + "\n"@
    }
}

/// The lines of the first `n` entries of a section.
pub open spec fn entry_lines(pairs: Seq<(Seq<char>, Seq<char>)>, bold: bool, n: int) -> Seq<char>
    decreases n,
{
    if n <= 0 {
        seq![]
    } else {
        entry_lines(pairs, bold, n - 1) + entry_line(pairs[n - 1].0, pairs[n - 1].1, bold)
    }
}

/// A section: its title and its lines, closed by `closing`; nothing for an
/// empty section.
pub open spec fn section(
    title: Seq<char>,
    pairs: Seq<(Seq<char>, Seq<char>)>,
    bold: bool,
    closing: Seq<char>,
) -> Seq<char> {
    if pairs.len() == 0 {
        seq![]
    } else {
        title + entry_lines(pairs, bold, pairs.len() as int) + closing
    }
}

/// The prompt followed by the sections on resources, tools and context;
/// the prompt alone when there is nothing to add.
pub open spec fn augmented(
    prompt: Seq<char>,
    resources: Seq<(Seq<char>, Seq<char>)>,
    tips: Seq<(Seq<char>, Seq<char>)>,
    context: Seq<(Seq<char>, Seq<char>)>,
) -> Seq<char> {
    if resources.len() == 0 && tips.len() == 0 && context.len() == 0 {
        prompt
    } else {
        prompt + "\n\n"@ + section("## Resource Constraints\n"@, resources, false, "\n"@) + section(
            "## Available Tools & Optimization Tips\n"@,
            tips,
            true,
            "\n"@,
        ) + section("## Execution Context\n"@, context, false, ""@)
    }
}

/// Hints on tools, resources and context that are added to prompts.
#[derive(Debug)]
pub struct EnvironmentTips {
    tips: StringMap,
    resources: StringMap,
    context: StringMap,
}

fn push_section(out: &mut Vec<char>, title: &str, map: &StringMap, bold: bool, closing: &str)
    ensures
        final(out)@ == old(out)@ + section(title@, map.pairs(), bold, closing@),
{
    if map.len() == 0 {
        proof {
            assert(out@ =~= old(out)@ + section(title@, map.pairs(), bold, closing@));
        }
        return ;
    }
    let t = to_chars(title);
    extend_chars(out, t.as_slice());
    let mut i: usize = 0;
    proof {
        assert(out@ =~= old(out)@ + title@ + entry_lines(map.pairs(), bold, 0));
    }
    while i < map.len()
        invariant
            i <= map.pairs().len(),
            out@ == old(out)@ + title@ + entry_lines(map.pairs(), bold, i as int),
        decreases map.pairs().len() - i,
    {
        let (key, value) = map.entry(i);
        let ghost before = out@;
        let open = to_chars(
            if bold {
                "- **"
            } else {
                "- "
            },
        );
        extend_chars(out, open.as_slice());
        let k = to_chars(key.as_str());
        extend_chars(out, k.as_slice());
        let mid = to_chars(
            if bold {
                "**: "
            } else {
                ": "
            },
        );
        extend_chars(out, mid.as_slice());
        let v = to_chars(value.as_str());
        extend_chars(out, v.as_slice());
        let end = to_chars("\n");
        extend_chars(out, end.as_slice());
        proof {
            assert(out@ =~= before + entry_line(key@, value@, bold));
            assert(out@ =~= old(out)@ + title@ + entry_lines(map.pairs(), bold, i + 1));
        }
        i += 1;
    }
    let c = to_chars(closing);
    extend_chars(out, c.as_slice());
    proof {
        assert(out@ =~= old(out)@ + section(title@, map.pairs(), bold, closing@));
    }
}

impl EnvironmentTips {
    /// The tool hints, in order of first insertion.
    pub closed spec fn tip_pairs(&self) -> Seq<(Seq<char>, Seq<char>)> {
        self.tips.pairs()
    }

    /// The resource limits, in order of first insertion.
    pub closed spec fn resource_pairs(&self) -> Seq<(Seq<char>, Seq<char>)> {
        self.resources.pairs()
    }

    /// The context values, in order of first insertion.
    pub closed spec fn context_pairs(&self) -> Seq<(Seq<char>, Seq<char>)> {
        self.context.pairs()
    }

    /// Tips with nothing in them.
    pub fn new() -> (t: EnvironmentTips)
        ensures
            t.tip_pairs().len() == 0,
            t.resource_pairs().len() == 0,
            t.context_pairs().len() == 0,
    {
        EnvironmentTips {
            tips: StringMap::new(),
            resources: StringMap::new(),
            context: StringMap::new(),
        }
    }

    /// Stores the hint `suggestion` for the tool `tool_name`.
    pub fn add_tip(self, tool_name: &str, suggestion: &str) -> (t: EnvironmentTips)
        ensures
            t.tip_pairs() == with_entry(self.tip_pairs(), tool_name@, suggestion@),
            t.resource_pairs() == self.resource_pairs(),
            t.context_pairs() == self.context_pairs(),
    {
        let mut t = self;
        t.tips.insert(String::from_str(tool_name), String::from_str(suggestion));
        t
    }

    /// Stores the limit `value` for the resource `resource`.
    pub fn add_resource(self, resource: &str, value: &str) -> (t: EnvironmentTips)
        ensures
            t.resource_pairs() == with_entry(self.resource_pairs(), resource@, value@),
            t.tip_pairs() == self.tip_pairs(),
            t.context_pairs() == self.context_pairs(),
    {
        let mut t = self;
        t.resources.insert(String::from_str(resource), String::from_str(value));
        t
    }

    /// Stores the context value `value` under `key`.
    pub fn add_context(self, key: &str, value: &str) -> (t: EnvironmentTips)
        ensures
            t.context_pairs() == with_entry(self.context_pairs(), key@, value@),
            t.tip_pairs() == self.tip_pairs(),
            t.resource_pairs() == self.resource_pairs(),
    {
        let mut t = self;
        t.context.insert(String::from_str(key), String::from_str(value));
        t
    }

    /// The prompt followed by the sections on resources, tools and context.
    /// Empty sections are left out, and a prompt with nothing to add comes
    /// back unchanged.
    pub fn augment_prompt(&self, prompt: &str) -> (out: String)
        ensures
            out@ == augmented(
                prompt@,
                self.resource_pairs(),
                self.tip_pairs(),
                self.context_pairs(),
            ),
    {
        if self.resources.is_empty() && self.tips.is_empty() && self.context.is_empty() {
            return String::from_str(prompt);
        }
        let mut out = to_chars(prompt);
        let gap = to_chars("\n\n");
        extend_chars(&mut out, gap.as_slice());
        push_section(&mut out, "## Resource Constraints\n", &self.resources, false, "\n");
        push_section(&mut out, "## Available Tools & Optimization Tips\n", &self.tips, true, "\n");
        push_section(&mut out, "## Execution Context\n", &self.context, false, "");
        from_chars(out.as_slice())
    }

    /// The hint for the tool `tool_name`.
    pub fn get_tip(&self, tool_name: &str) -> (v: Option<&str>)
        ensures
            match v {
                Some(s) => value_of(self.tip_pairs(), tool_name@) == Some(s@),
                None => value_of(self.tip_pairs(), tool_name@) is None,
            },
    {
        match self.tips.get(tool_name) {
            Some(s) => Some(s.as_str()),
            None => None,
        }
    }

    /// The limit for the resource `resource`.
    pub fn get_resource(&self, resource: &str) -> (v: Option<&str>)
        ensures
            match v {
                Some(s) => value_of(self.resource_pairs(), resource@) == Some(s@),
                None => value_of(self.resource_pairs(), resource@) is None,
            },
    {
        match self.resources.get(resource) {
            Some(s) => Some(s.as_str()),
            None => None,
        }
    }

    /// The context value under `key`.
    pub fn get_context(&self, key: &str) -> (v: Option<&str>)
        ensures
            match v {
                Some(s) => value_of(self.context_pairs(), key@) == Some(s@),
                None => value_of(self.context_pairs(), key@) is None,
            },
    {
        match self.context.get(key) {
            Some(s) => Some(s.as_str()),
            None => None,
        }
    }

    /// The tool hints.
    pub fn tips(&self) -> (m: &StringMap)
        ensures
            m.pairs() == self.tip_pairs(),
    {
        &self.tips
    }

    /// The resource limits.
    pub fn resources(&self) -> (m: &StringMap)
        ensures
            m.pairs() == self.resource_pairs(),
    {
        &self.resources
    }

    /// The context values.
    pub fn context(&self) -> (m: &StringMap)
        ensures
            m.pairs() == self.context_pairs(),
    {
        &self.context
    }
}

impl Default for EnvironmentTips {
    fn default() -> (t: EnvironmentTips)
        ensures
            t.tip_pairs().len() == 0,
            t.resource_pairs().len() == 0,
            t.context_pairs().len() == 0,
    {
        EnvironmentTips::new()
    }
}

} // verus!
