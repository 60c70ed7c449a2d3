//! Host commands: which program is started with which arguments, and how a
//! command is redirected into a named network namespace.

use crate::text::texts;
use vstd::prelude::*;
use vstd::string::*;

verus! {

/// The network namespace a host command runs in.
#[derive(Debug, PartialEq, Eq)]
pub enum CommandNamespace {
    /// A namespace created with `ip netns add`.
    Named(String),
    /// The host's default namespace.
    Global,
}

/// What a `CommandNamespace` stands for.
pub enum NamespaceView {
    Named(Seq<char>),
    Global,
}

impl View for CommandNamespace {
    type V = NamespaceView;

    open spec fn view(&self) -> NamespaceView {
        match self {
            CommandNamespace::Named(name) => NamespaceView::Named(name@),
            CommandNamespace::Global => NamespaceView::Global,
        }
    }
}

impl Clone for CommandNamespace {
    fn clone(&self) -> (out: Self)
        ensures
            out@ == self@,
    {
        match self {
            CommandNamespace::Named(name) => CommandNamespace::Named(name.clone()),
            CommandNamespace::Global => CommandNamespace::Global,
        }
    }
}

impl CommandNamespace {
    /// The text a namespace is printed as: its name, or `global`.
    pub open spec fn text(self) -> Seq<char> {
        match self {
            CommandNamespace::Named(name) => name@,
            CommandNamespace::Global => "global"@,
        }
    }

    /// The namespace as text: its name, or `global` for the host's own.
    pub fn to_text(&self) -> (out: String)
        ensures
            out@ == self.text(),
    {
        match self {
            CommandNamespace::Named(name) => name.clone(),
            CommandNamespace::Global => String::from_str("global"),
        }
    }
}

/// A program and the arguments it is started with.
#[derive(Debug, PartialEq, Eq)]
pub struct CommandLine {
    pub program: String,
    pub args: Vec<String>,
}

/// What a `CommandLine` stands for.
pub struct CommandLineView {
    pub program: Seq<char>,
    pub args: Seq<Seq<char>>,
}

impl View for CommandLine {
    type V = CommandLineView;

    open spec fn view(&self) -> CommandLineView {
        CommandLineView { program: self.program@, args: texts(self.args@) }
    }
}

impl Clone for CommandLine {
    fn clone(&self) -> (out: Self)
        ensures
            out@ == self@,
    {
        CommandLine { program: self.program.clone(), args: clone_texts(&self.args) }
    }
}

/// A copy of `items`, string by string.
pub fn clone_texts(items: &Vec<String>) -> (out: Vec<String>)
    ensures
        texts(out@) == texts(items@),
{
    let mut out: Vec<String> = Vec::new();
    let mut i: usize = 0;
    while i < items.len()
        invariant
            i <= items.len(),
            out.len() == i,
            forall|j: int| 0 <= j < i ==> out[j]@ == items[j]@,
        decreases items.len() - i,
    {
        out.push(items[i].clone());
        i = i + 1;
    }
    assert(texts(out@) =~= texts(items@));
    out
}

/// Appends a copy of `text` to `items`.
pub fn push_text(items: &mut Vec<String>, text: &str)
    ensures
        texts(final(items)@) == texts(old(items)@).push(text@),
{
    items.push(String::from_str(text));
    assert(texts(items@) =~= texts(old(items)@).push(text@));
}

/// The command that is really started when `program` is to run with `args` in
/// `namespace`: itself in the host's namespace; inside a named one, `ip` with
/// `netns exec`, the namespace, the program and then every argument as it
/// is.
pub open spec fn resolved(
    namespace: NamespaceView,
    program: Seq<char>,
    args: Seq<Seq<char>>,
) -> CommandLineView {
    match namespace {
        NamespaceView::Global => CommandLineView { program, args },
        NamespaceView::Named(name) => CommandLineView {
            program: "ip"@,
            args: seq!["netns"@, "exec"@, name, program] + args,
        },
    }
}

/// Works out the command to start for `program` with `args` in `namespace`.
pub fn command_line(namespace: &CommandNamespace, program: &str, args: &Vec<String>) -> (out:
    CommandLine)
    ensures
        out@ == resolved(namespace@, program@, texts(args@)),
{
    match namespace {
        CommandNamespace::Global => CommandLine {
            program: String::from_str(program),
            args: clone_texts(args),
        },
        CommandNamespace::Named(name) => {
            let mut words: Vec<String> = Vec::new();
            push_text(&mut words, "netns");
            push_text(&mut words, "exec");
            push_text(&mut words, name.as_str());
            push_text(&mut words, program);
            let ghost head = seq!["netns"@, "exec"@, name@, program@];
            assert(texts(words@) =~= head + texts(args@).take(0));
            let mut i: usize = 0;
            while i < args.len()
                invariant
                    i <= args.len(),
                    texts(words@) == head + texts(args@).take(i as int),
                decreases args.len() - i,
            {
                let ghost before = texts(words@);
                push_text(&mut words, args[i].as_str());
                i = i + 1;
                assert(texts(words@) =~= head + texts(args@).take(i as int)) by {
                    assert(texts(args@).take(i as int) =~= texts(args@).take(i - 1).push(
                        args[i - 1]@,
                    ));
                }
            }
            assert(texts(args@).take(args.len() as int) =~= texts(args@));
            CommandLine { program: String::from_str("ip"), args: words }
        },
    }
}

} // verus!
