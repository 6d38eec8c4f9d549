//! The commands that are run, described as data.
use crate::args::NixBuildPassthroughArgs;
use crate::installable::{Installable, InstallableView};
use crate::os_text::{path_join, OsText};
use crate::text::copy_strings;
use vstd::prelude::*;
use vstd::utf8::encode_utf8;

verus! {

/// A command and how it is run.
#[derive(Debug, PartialEq, Eq)]
pub struct CommandLine {
    pub program: OsText,
    pub args: Vec<String>,
    /// What the user is told before the command runs.
    pub message: Option<String>,
    /// Whether the command needs the rights of root.
    pub elevate: bool,
    /// Whether the user sees what the command prints.
    pub show_output: bool,
    /// Whether the command is given the environment variables that Nix commands need.
    pub required_env: bool,
}

/// The content of a [`CommandLine`].
#[verifier::ext_equal]
pub ghost struct CommandLineView {
    pub program: Seq<u8>,
    pub args: Seq<Seq<char>>,
    pub message: Option<Seq<char>>,
    pub elevate: bool,
    pub show_output: bool,
    pub required_env: bool,
}

impl View for CommandLine {
    type V = CommandLineView;

    open spec fn view(&self) -> CommandLineView {
        CommandLineView {
            program: self.program@,
            args: self.args.deep_view(),
            message: self.message.deep_view(),
            elevate: self.elevate,
            show_output: self.show_output,
            required_env: self.required_env,
        }
    }
}

impl CommandLineView {
    /// `nix` with the arguments `args`.
    pub open spec fn nix(args: Seq<Seq<char>>) -> Self {
        CommandLineView {
            program: encode_utf8("nix"@),
            args,
            message: None,
            elevate: false,
            show_output: false,
            required_env: true,
        }
    }

    /// The command that prints the current Nix system.
    pub open spec fn current_system() -> Self {
        Self::nix(seq!["config"@, "show"@, "system"@])
    }

    /// The command that succeeds if the installable written `target_args` evaluates.
    pub open spec fn evaluation(extra_args: Seq<Seq<char>>, target_args: Seq<Seq<char>>) -> Self {
        Self::nix(seq!["eval"@] + extra_args + target_args)
    }

    /// The command that loads the installable written `target_args` in a REPL.
    pub open spec fn repl(target_args: Seq<Seq<char>>) -> Self {
        CommandLineView { show_output: true, ..Self::nix(seq!["repl"@] + target_args) }
    }

    /// The command that activates the configuration built at `out_path`.
    pub open spec fn activation(out_path: Seq<u8>, elevate: bool, show_output: bool) -> Self {
        CommandLineView {
            program: path_join(out_path, encode_utf8("bin/activate"@)),
            args: Seq::empty(),
            message: Some("Activating configuration"@),
            elevate,
            show_output,
            required_env: true,
        }
    }
}

impl CommandLine {
    fn nix(args: Vec<String>) -> (r: Self)
        ensures
            r@ == CommandLineView::nix(args.deep_view()),
    {
        CommandLine {
            program: OsText::from_text("nix"),
            args,
            message: None,
            elevate: false,
            show_output: false,
            required_env: true,
        }
    }

    /// The command that prints the current Nix system.
    pub fn current_system() -> (r: Self)
        ensures
            r@ == CommandLineView::current_system(),
    {
        let args = vec!["config".to_owned(), "show".to_owned(), "system".to_owned()];
        assert(args.deep_view() =~= seq!["config"@, "show"@, "system"@]);
        CommandLine::nix(args)
    }

    /// The command that succeeds if the installable written `target_args` evaluates.
    pub fn evaluation(extra_args: &Vec<String>, target_args: &Vec<String>) -> (r: Self)
        ensures
            r@ == CommandLineView::evaluation(extra_args.deep_view(), target_args.deep_view()),
    {
        let mut args = vec!["eval".to_owned()];
        args.append(&mut copy_strings(extra_args));
        args.append(&mut copy_strings(target_args));
        assert(args.deep_view() =~= seq!["eval"@] + extra_args.deep_view()
            + target_args.deep_view());
        CommandLine::nix(args)
    }

    /// The command that loads the installable written `target_args` in a REPL.
    pub fn repl(target_args: &Vec<String>) -> (r: Self)
        ensures
            r@ == CommandLineView::repl(target_args.deep_view()),
    {
        let mut args = vec!["repl".to_owned()];
        args.append(&mut copy_strings(target_args));
        assert(args.deep_view() =~= seq!["repl"@] + target_args.deep_view());
        CommandLine { show_output: true, ..CommandLine::nix(args) }
    }

    /// The command that activates the configuration built at `out_path`.
    pub fn activation(out_path: &OsText, elevate: bool, show_output: bool) -> (r: Self)
        ensures
            r@ == CommandLineView::activation(out_path@, elevate, show_output),
    {
        let r = CommandLine {
            program: out_path.join("bin/activate"),
            args: Vec::new(),
            message: Some("Activating configuration".to_owned()),
            elevate,
            show_output,
            required_env: true,
        };
        assert(r.args.deep_view() =~= Seq::empty());
        r
    }
}

/// A build and how it is run.
#[derive(Debug, PartialEq, Eq)]
pub struct BuildRequest {
    pub target: Installable,
    /// The arguments besides the target and the options passed through to Nix.
    pub args: Vec<OsText>,
    /// The options passed through to Nix.
    pub passthrough: NixBuildPassthroughArgs,
    /// What the user is told before the build runs.
    pub message: String,
    /// Whether the output goes through nix-output-monitor.
    pub nom: bool,
}

/// The content of a [`BuildRequest`].
#[verifier::ext_equal]
pub ghost struct BuildRequestView {
    pub target: InstallableView,
    pub args: Seq<Seq<u8>>,
    pub passthrough: NixBuildPassthroughArgs,
    pub message: Seq<char>,
    pub nom: bool,
}

impl View for BuildRequest {
    type V = BuildRequestView;

    open spec fn view(&self) -> BuildRequestView {
        BuildRequestView {
            target: self.target@,
            args: self.args.deep_view(),
            passthrough: self.passthrough,
            message: self.message@,
            nom: self.nom,
        }
    }
}

/// The UTF-8 bytes of each of `texts`.
pub open spec fn encoded(texts: Seq<Seq<char>>) -> Seq<Seq<u8>> {
    texts.map_values(|text: Seq<char>| encode_utf8(text))
}

impl BuildRequestView {
    /// The build of `target` whose result is linked from `out_path`.
    pub open spec fn new(
        target: InstallableView,
        out_path: Seq<u8>,
        extra_args: Seq<Seq<char>>,
        passthrough: NixBuildPassthroughArgs,
        nom: bool,
    ) -> Self {
        BuildRequestView {
            target,
            args: seq![encode_utf8("--out-link"@), out_path] + encoded(extra_args),
            passthrough,
            message: "Building System Manager configuration"@,
            nom,
        }
    }
}

impl BuildRequest {
    /// The build of `target` whose result is linked from `out_path`.
    pub fn new(
        target: Installable,
        out_path: &OsText,
        extra_args: &Vec<String>,
        passthrough: NixBuildPassthroughArgs,
        nom: bool,
    ) -> (r: Self)
        ensures
            r@ == BuildRequestView::new(
                target@,
                out_path@,
                extra_args.deep_view(),
                passthrough,
                nom,
            ),
    {
        let ghost extra = extra_args.deep_view();
        let ghost link = seq![encode_utf8("--out-link"@), out_path@];
        let mut args: Vec<OsText> = vec![OsText::from_text("--out-link"), out_path.clone()];
        assert(args.deep_view() =~= link + encoded(extra.take(0)));
        for i in 0..extra_args.len()
            invariant
                extra == extra_args.deep_view(),
                args.deep_view() == link + encoded(extra.take(i as int)),
        {
            let ghost before = args.deep_view();
            args.push(OsText::from_text(extra_args[i].as_str()));
            assert(args.deep_view() =~= before.push(encode_utf8(extra[i as int])));
            assert(encoded(extra.take(i + 1)) =~= encoded(extra.take(i as int)).push(
                encode_utf8(extra[i as int]),
            ));
            assert(args.deep_view() =~= link + encoded(extra.take(i + 1)));
        }
        assert(extra.take(extra.len() as int) =~= extra);
        BuildRequest {
            target,
            args,
            passthrough,
            message: "Building System Manager configuration".to_owned(),
            nom,
        }
    }
}

/// The content of a command tells all of its parts.
pub proof fn law_command_content_is_complete(command: CommandLine)
    ensures
        command@.program == command.program.bytes@,
        command@.args.len() == command.args@.len(),
        forall|i: int| 0 <= i < command.args@.len() ==> #[trigger] command@.args[i] == command.args@[i]@,
        command@.message is Some <==> command.message is Some,
        command.message is Some ==> command@.message->0 == command.message->0@,
        command@.elevate == command.elevate,
        command@.show_output == command.show_output,
        command@.required_env == command.required_env,
{
}

/// The content of a build tells all of its parts.
pub proof fn law_build_content_is_complete(request: BuildRequest)
    ensures
        request@.target == request.target@,
        request@.args.len() == request.args@.len(),
        forall|i: int|
            0 <= i < request.args@.len() ==> #[trigger] request@.args[i] == request.args@[i].bytes@,
        request@.passthrough.commit_lock_file == request.passthrough.commit_lock_file,
        request@.message == request.message@,
        request@.nom == request.nom,
{
}

/// The current system is read from `nix config show system`, run without a word to the user.
pub proof fn law_system_is_read_from_the_configuration_of_nix()
    ensures
        ({
            let command = CommandLineView::current_system();
            &&& command.program == encode_utf8("nix"@)
            &&& command.args.len() == 3
            &&& command.args[0] == "config"@
            &&& command.args[1] == "show"@
            &&& command.args[2] == "system"@
            &&& command.message is None
            &&& !command.elevate
            &&& !command.show_output
            &&& command.required_env
        }),
{
}

/// A candidate is evaluated by `nix eval` with every extra argument, in order, and then every
/// argument of the candidate, in order.
pub proof fn law_evaluation_passes_every_argument(
    extra_args: Seq<Seq<char>>,
    target_args: Seq<Seq<char>>,
)
    ensures
        ({
            let command = CommandLineView::evaluation(extra_args, target_args);
            &&& command.program == encode_utf8("nix"@)
            &&& command.args.len() == 1 + extra_args.len() + target_args.len()
            &&& command.args[0] == "eval"@
            &&& forall|i: int|
                0 <= i < extra_args.len() ==> command.args[1 + i] == #[trigger] extra_args[i]
            &&& forall|i: int|
                0 <= i < target_args.len() ==> command.args[1 + extra_args.len() + i]
                    == #[trigger] target_args[i]
            &&& command.message is None
            &&& !command.elevate
            &&& !command.show_output
            &&& command.required_env
        }),
{
}

/// A REPL is opened by `nix repl` with every argument of what is loaded, in order, in view of the
/// user.
pub proof fn law_repl_passes_every_argument(target_args: Seq<Seq<char>>)
    ensures
        ({
            let command = CommandLineView::repl(target_args);
            &&& command.program == encode_utf8("nix"@)
            &&& command.args.len() == 1 + target_args.len()
            &&& command.args[0] == "repl"@
            &&& forall|i: int|
                0 <= i < target_args.len() ==> command.args[1 + i] == #[trigger] target_args[i]
            &&& command.message is None
            &&& !command.elevate
            &&& command.show_output
            &&& command.required_env
        }),
{
}

/// A configuration is activated by the program `bin/activate` under its link, without arguments,
/// with the rights and in the view that are asked for.
pub proof fn law_activation_runs_the_program_of_the_result(
    out_path: Seq<u8>,
    elevate: bool,
    show_output: bool,
)
    ensures
        ({
            let command = CommandLineView::activation(out_path, elevate, show_output);
            &&& command.program == path_join(out_path, encode_utf8("bin/activate"@))
            &&& command.args.len() == 0
            &&& command.message == Some("Activating configuration"@)
            &&& command.elevate == elevate
            &&& command.show_output == show_output
            &&& command.required_env
        }),
{
}

/// A build links its result where it is told to and passes every extra argument on, in order.
pub proof fn law_build_passes_every_argument(
    target: InstallableView,
    out_path: Seq<u8>,
    extra_args: Seq<Seq<char>>,
    passthrough: NixBuildPassthroughArgs,
    nom: bool,
)
    ensures
        ({
            let request = BuildRequestView::new(target, out_path, extra_args, passthrough, nom);
            &&& request.target == target
            &&& request.args.len() == 2 + extra_args.len()
            &&& request.args[0] == encode_utf8("--out-link"@)
            &&& request.args[1] == out_path
            &&& forall|i: int|
                0 <= i < extra_args.len() ==> request.args[2 + i] == encode_utf8(
                    #[trigger] extra_args[i],
                )
            &&& request.passthrough == passthrough
            &&& request.message == "Building System Manager configuration"@
            &&& request.nom == nom
        }),
{
}

} // verus!
