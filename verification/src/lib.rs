//! Context-server command resolution for a database-operations MCP
//! (model-context-protocol) editor extension.
//!
//! The library's whole job is to answer the host editor's question "how do I
//! launch the context server?" with a fixed command descriptor: run the `uv`
//! package runner on the current project directory in MCP server mode, with an
//! empty environment. Resolution is total and deterministic; the host performs
//! the actual launch.

use vstd::prelude::*;

verus! {

/// Mathematical model of a command descriptor: the program name, the ordered
/// argument tokens, and the environment bindings, all as plain sequences.
#[verifier::ext_equal]
pub struct DescriptorModel {
    pub command: Seq<char>,
    pub args: Seq<Seq<char>>,
    pub env: Seq<(Seq<char>, Seq<char>)>,
}

/// How a context-server process is to be launched: an executable name, its
/// arguments in order, and environment variable bindings. The descriptor only
/// describes the launch; it performs nothing itself.
pub struct CommandDescriptor {
    pub command: String,
    pub args: Vec<String>,
    pub env: Vec<(String, String)>,
}

impl View for CommandDescriptor {
    type V = DescriptorModel;

    open spec fn view(&self) -> DescriptorModel {
        DescriptorModel {
            command: self.command@,
            args: self.args@.map_values(|a: String| a@),
            env: self.env@.map_values(|b: (String, String)| (b.0@, b.1@)),
        }
    }
}

/// The one descriptor this extension ever returns: `uv run --project . --mcp`
/// with an empty environment.
pub open spec fn fixed_descriptor() -> DescriptorModel {
    DescriptorModel {
        command: "uv"@,
        args: seq!["run"@, "--project"@, "."@, "--mcp"@],
        env: Seq::empty(),
    }
}

/// Identifier of the context server whose launch command the host asks for.
/// The host supplies it; this extension never inspects it.
pub struct ContextServerId(pub String);

/// Opaque stand-in for the host's handle to the current project or workspace.
/// The host supplies it; this extension never inspects it.
pub struct ProjectHandle;

/// Holds when resolution answered with the fixed launch command: it succeeded,
/// and the descriptor it returned is exactly `fixed_descriptor()`.
pub open spec fn resolves_to_fixed_command(r: Result<CommandDescriptor, String>) -> bool {
    &&& r is Ok
    &&& r->Ok_0@ == fixed_descriptor()
}

/// The plugin adapter: a stateless value whose one operation resolves a
/// context-server identifier to the fixed launch command.
pub struct DatabaseOperationsMcpExtension;

impl DatabaseOperationsMcpExtension {
    /// Constructs the adapter. It has no state to set up.
    pub fn new() -> Self {
        Self
    }

    /// Resolves the launch command for the requested context server: always
    /// succeeds, ignores both inputs, changes nothing, and returns the fixed
    /// descriptor `uv run --project . --mcp` with an empty environment.
    pub fn context_server_command(
        &mut self,
        _id: &ContextServerId,
        _project: &ProjectHandle,
    ) -> (r: Result<CommandDescriptor, String>)
        ensures
            resolves_to_fixed_command(r),
            *old(self) == *final(self),
    {
        let descriptor = CommandDescriptor {
            command: String::from_str("uv"),
            args: vec![
                String::from_str("run"),
                String::from_str("--project"),
                String::from_str("."),
                String::from_str("--mcp"),
            ],
            env: Vec::new(),
        };
        proof {
            assert(descriptor@.args =~= fixed_descriptor().args);
            assert(descriptor@.env =~= fixed_descriptor().env);
            assert(descriptor@ =~= fixed_descriptor());
        }
        Ok(descriptor)
    }
}

/// Resolution is deterministic: whatever identifiers and project handles two
/// invocations were given, the descriptors they return are identical.
pub proof fn lemma_resolution_deterministic(
    r1: Result<CommandDescriptor, String>,
    r2: Result<CommandDescriptor, String>,
)
    requires
        resolves_to_fixed_command(r1),
        resolves_to_fixed_command(r2),
    ensures
        r1 is Ok,
        r2 is Ok,
        r1->Ok_0@ == r2->Ok_0@,
{
}

/// The returned descriptor has the fixed shape: executable `uv`; exactly the
/// four argument tokens `run`, `--project`, `.`, `--mcp` in that order; and an
/// empty environment.
pub proof fn lemma_fixed_shape(r: Result<CommandDescriptor, String>)
    requires
        resolves_to_fixed_command(r),
    ensures
        r is Ok,
        r->Ok_0@.command == "uv"@,
        r->Ok_0@.args.len() == 4,
        r->Ok_0@.args[0] == "run"@,
        r->Ok_0@.args[1] == "--project"@,
        r->Ok_0@.args[2] == "."@,
        r->Ok_0@.args[3] == "--mcp"@,
        r->Ok_0@.env.len() == 0,
{
}

} // verus!
