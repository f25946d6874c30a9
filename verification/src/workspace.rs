//! What the judge needs to know of a workspace: which compiler to call, with
//! which flags, and how source and executable files are named.

use vstd::prelude::*;
use vstd::string::StringExecFns;
use crate::text::{char_at, chars_of, string_of};

verus! {

/// The settings of a workspace that judging depends on.
#[derive(Debug, PartialEq, Eq)]
pub struct Workspace {
    /// The compiler's executable name.
    pub cc_compiler: String,
    /// The compiler flags, as one string that is split into arguments.
    pub cc_flags: String,
    /// The extension that source files carry, without the dot.
    pub cc_default_extension: String,
}

/// A compiler invocation: the program and its arguments in order.
#[derive(Debug, PartialEq, Eq)]
pub struct CompileCommand {
    pub program: String,
    pub arguments: Vec<String>,
}

/// Where the flag splitter stands between two characters.
#[derive(Clone, Copy, Debug, PartialEq, Eq, Structural)]
pub enum QuoteMode {
    /// Outside double quotes: a space ends the argument.
    Unquoted,
    /// Inside double quotes: spaces belong to the argument.
    Quoted,
    /// Right after a backslash inside double quotes.
    Escaped,
}

/// The state of the flag splitter after some prefix of the flag string.
pub struct Splitter {
    pub mode: QuoteMode,
    /// The characters of the argument that is being read.
    pub pending: Seq<char>,
    /// The arguments that are complete.
    pub done: Seq<Seq<char>>,
}

/// The state before any character is read.
pub open spec fn splitter_start() -> Splitter {
    Splitter { mode: QuoteMode::Unquoted, pending: Seq::empty(), done: Seq::empty() }
}

/// `done` with the pending argument added, unless that is empty.
pub open spec fn flush(done: Seq<Seq<char>>, pending: Seq<char>) -> Seq<Seq<char>> {
    if pending.len() > 0 {
        done.push(pending)
    } else {
        done
    }
}

/// The state after reading `c` in state `st`.
///
/// Outside quotes a space ends the pending argument and a double quote opens
/// a quoted stretch. Inside quotes a double quote closes the stretch and a
/// backslash makes the next character literal. Every other character joins
/// the pending argument.
pub open spec fn splitter_step(st: Splitter, c: char) -> Splitter {
    match st.mode {
        QuoteMode::Unquoted => {
            if c == ' ' {
                Splitter {
                    mode: QuoteMode::Unquoted,
                    pending: Seq::empty(),
                    done: flush(st.done, st.pending),
                }
            } else if c == '"' {
                Splitter { mode: QuoteMode::Quoted, ..st }
            } else {
                Splitter { pending: st.pending.push(c), ..st }
            }
        },
        QuoteMode::Quoted => {
            if c == '"' {
                Splitter { mode: QuoteMode::Unquoted, ..st }
            } else if c == '\\' {
                Splitter { mode: QuoteMode::Escaped, ..st }
            } else {
                Splitter { pending: st.pending.push(c), ..st }
            }
        },
        QuoteMode::Escaped => Splitter {
            mode: QuoteMode::Quoted,
            pending: st.pending.push(c),
            ..st
        },
    }
}

/// The state after reading all of `flags`.
pub open spec fn splitter_after(flags: Seq<char>) -> Splitter
    decreases flags.len(),
{
    if flags.len() == 0 {
        splitter_start()
    } else {
        splitter_step(splitter_after(flags.drop_last()), flags.last())
    }
}

/// The arguments that a flag string stands for: its stretches between spaces
/// that lie outside double quotes, without the quotes and the escaping
/// backslashes; empty arguments are left out.
pub open spec fn spec_parse_args(flags: Seq<char>) -> Seq<Seq<char>> {
    let end = splitter_after(flags);
    flush(end.done, end.pending)
}

/// The name of the source file of target `name`.
pub open spec fn spec_source_name(name: Seq<char>, extension: Seq<char>) -> Seq<char> {
    name.push('.') + extension
}

/// The position of the last dot in `s`, or -1 where it has none.
pub open spec fn spec_last_dot(s: Seq<char>) -> int
    decreases s.len(),
{
    if s.len() == 0 {
        -1
    } else if s.last() == '.' {
        s.len() - 1
    } else {
        spec_last_dot(s.drop_last())
    }
}

/// The name of the executable built from `source`: the source name without
/// its last dot and what follows it.
pub open spec fn spec_executable_name(source: Seq<char>) -> Seq<char> {
    if spec_last_dot(source) < 0 {
        source
    } else {
        source.take(spec_last_dot(source))
    }
}

/// The arguments of a compiler call: the flags, then `-o` and the executable,
/// the debug definition where asked for, and the source file last.
pub open spec fn spec_compile_arguments(
    flags: Seq<char>,
    source: Seq<char>,
    executable: Seq<char>,
    use_debug: bool,
) -> Seq<Seq<char>> {
    let head = spec_parse_args(flags).push("-o"@).push(executable);
    if use_debug {
        head.push("-D__DEBUG__"@).push(source)
    } else {
        head.push(source)
    }
}

/// The name of the executable built from `source`.
pub fn executable_name(source: &str) -> (out: String)
    ensures
        out@ == spec_executable_name(source@),
{
    let chars = chars_of(source);
    let mut end: usize = chars.len();
    assert(chars@.take(end as int) == chars@);
    while end > 0 && char_at(&chars, end - 1) != '.'
        invariant
            end <= chars.len(),
            spec_last_dot(chars@) == spec_last_dot(chars@.take(end as int)),
        decreases end,
    {
        assert(chars@.take(end as int).drop_last() == chars@.take(end - 1));
        end -= 1;
    }
    if end == 0 {
        string_of(&chars)
    } else {
        let mut kept = chars;
        kept.truncate(end - 1);
        string_of(&kept)
    }
}

impl Workspace {
    /// The name of the source file of target `name`: the name, a dot and the
    /// workspace's extension.
    pub fn source_name(&self, name: &str) -> (out: String)
        ensures
            out@ == spec_source_name(name@, self.cc_default_extension@),
    {
        let mut out = String::from_str(name);
        out.push('.');
        out.append(self.cc_default_extension.as_str());
        out
    }

    /// Splits the workspace's flag string into compiler arguments.
    pub fn parse_args(&self) -> (out: Vec<String>)
        ensures
            out.deep_view() == spec_parse_args(self.cc_flags@),
    {
        let chars = chars_of(self.cc_flags.as_str());
        let mut done: Vec<String> = Vec::new();
        let mut pending: Vec<char> = Vec::new();
        let mut mode = QuoteMode::Unquoted;
        let mut i: usize = 0;
        assert(done.deep_view() == Seq::<Seq<char>>::empty());
        while i < chars.len()
            invariant
                i <= chars.len(),
                chars@ == self.cc_flags@,
                splitter_after(chars@.take(i as int)) == (Splitter {
                    mode,
                    pending: pending@,
                    done: done.deep_view(),
                }),
            decreases chars.len() - i,
        {
            let c = char_at(&chars, i);
            let ghost before = splitter_after(chars@.take(i as int));
            assert(chars@.take(i + 1).drop_last() == chars@.take(i as int));
            match mode {
                QuoteMode::Unquoted => {
                    if c == ' ' {
                        if pending.len() > 0 {
                            done.push(string_of(&pending));
                            pending = Vec::new();
                        }
                    } else if c == '"' {
                        mode = QuoteMode::Quoted;
                    } else {
                        pending.push(c);
                    }
                },
                QuoteMode::Quoted => {
                    if c == '"' {
                        mode = QuoteMode::Unquoted;
                    } else if c == '\\' {
                        mode = QuoteMode::Escaped;
                    } else {
                        pending.push(c);
                    }
                },
                QuoteMode::Escaped => {
                    pending.push(c);
                    mode = QuoteMode::Quoted;
                },
            }
            assert(pending@ =~= splitter_step(before, c).pending);
            assert(done.deep_view() =~= splitter_step(before, c).done);
            i += 1;
        }
        assert(chars@.take(chars.len() as int) == chars@);
        if pending.len() > 0 {
            done.push(string_of(&pending));
        }
        done
    }

    /// The compiler call that builds `executable_name` from `real_name`.
    pub fn compile_cpp(&self, real_name: &str, executable_name: &str, use_debug: bool) -> (out:
        CompileCommand)
        ensures
            out.program@ == self.cc_compiler@,
            out.arguments.deep_view() == spec_compile_arguments(
                self.cc_flags@,
                real_name@,
                executable_name@,
                use_debug,
            ),
    {
        let mut arguments = self.parse_args();
        arguments.push(String::from_str("-o"));
        arguments.push(String::from_str(executable_name));
        if use_debug {
            arguments.push(String::from_str("-D__DEBUG__"));
        }
        arguments.push(String::from_str(real_name));
        CompileCommand { program: self.cc_compiler.clone(), arguments }
    }
}

} // verus!
