//! Command lines of the two external build steps.
use vstd::prelude::*;

verus! {

/// A program to run and the arguments to hand it.
pub struct Command {
    pub program: String,
    pub args: Vec<String>,
}

/// A command line as text: the program, then each argument.
pub struct CommandView {
    pub program: Seq<char>,
    pub args: Seq<Seq<char>>,
}

impl View for Command {
    type V = CommandView;

    open spec fn view(&self) -> CommandView {
        CommandView { program: self.program@, args: self.args@.map_values(|a: String| a@) }
    }
}

/// `roc build --lib <script>`: compiles the script into a shared library.
pub open spec fn compile_command_of(script: Seq<char>) -> CommandView {
    CommandView { program: "roc"@, args: seq!["build"@, "--lib"@, script] }
}

/// `zig build-lib -dynamic -lc <script artifact> <host> -femit-bin=<output>`:
/// merges the two artifacts into one shared library linked against the C runtime.
pub open spec fn link_command_of(
    script_artifact: Seq<char>,
    host: Seq<char>,
    output: Seq<char>,
) -> CommandView {
    CommandView {
        program: "zig"@,
        args: seq![
            "build-lib"@,
            "-dynamic"@,
            "-lc"@,
            script_artifact,
            host,
            "-femit-bin="@ + output,
        ],
    }
}

/// The command that compiles `script`.
pub fn compile_command(script: &str) -> (r: Command)
    ensures
        r@ == compile_command_of(script@),
{
    let mut args: Vec<String> = Vec::new();
    args.push(String::from_str("build"));
    args.push(String::from_str("--lib"));
    args.push(String::from_str(script));
    let r = Command { program: String::from_str("roc"), args };
    assert(r@.args =~= compile_command_of(script@).args);
    r
}

/// The command that links the script artifact and the host artifact into `output`.
pub fn link_command(script_artifact: &str, host: &str, output: &str) -> (r: Command)
    ensures
        r@ == link_command_of(script_artifact@, host@, output@),
{
    let mut emit = String::from_str("-femit-bin=");
    emit.append(output);
    let mut args: Vec<String> = Vec::new();
    args.push(String::from_str("build-lib"));
    args.push(String::from_str("-dynamic"));
    args.push(String::from_str("-lc"));
    args.push(String::from_str(script_artifact));
    args.push(String::from_str(host));
    args.push(emit);
    let r = Command { program: String::from_str("zig"), args };
    assert(r@.args =~= link_command_of(script_artifact@, host@, output@).args);
    r
}

} // verus!
