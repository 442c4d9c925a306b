//! Discovery of the interface that carries the host's default route.

use vstd::prelude::*;
use crate::command::{
    CommandOutput, CommandOutputView, Invocation, InvocationView, Pipeline, PipelineView,
};
use crate::error::{Failure, FailureView, WgInitErrors};
use crate::text::{
    chars_of, find_from, first_line, is_space, lemma_position_of, lemma_trimmed_end, one_line,
    position_of, trimmed_end, trimmed_len,
};

verus! {

/// The host's outbound interface, by name.
#[derive(Debug, Clone, PartialEq, Eq)]
pub struct NetworkInterface {
    pub name: String,
}

impl View for NetworkInterface {
    type V = Seq<char>;

    open spec fn view(&self) -> Seq<char> {
        self.name@
    }
}

/// `ip -o -4 route show to default | awk '{print $5}'`: one line for each
/// default route, holding the name of its interface.
pub open spec fn default_route_command() -> PipelineView {
    PipelineView {
        stages: seq![
            InvocationView {
                program: "ip"@,
                args: seq!["-o"@, "-4"@, "route"@, "show"@, "to"@, "default"@],
            },
            InvocationView { program: "awk"@, args: seq!["{print $5}"@] },
        ],
        input: None,
    }
}

/// The command that lists the interfaces of the default routes.
pub fn default_route() -> (p: Pipeline)
    ensures
        p@ == default_route_command(),
{
    let p = Pipeline::of(
        Invocation::program("ip").arg("-o").arg("-4").arg("route").arg("show").arg("to").arg(
            "default",
        ),
    ).pipe(Invocation::program("awk").arg("{print $5}"));
    assert(p@.stages[0].args =~= default_route_command().stages[0].args);
    assert(p@.stages[1].args =~= default_route_command().stages[1].args);
    assert(p@.stages =~= default_route_command().stages);
    p
}

/// The interface named by the listing `stdout`: its first line, without the
/// whitespace at the line's end. Further lines, for further default routes,
/// do not count.
pub open spec fn interface_name(stdout: Seq<char>) -> Seq<char> {
    trimmed_end(first_line(stdout))
}

/// The name that is read from a listing is a bare token: it stands at the
/// front of the listing, holds no line feed and does not end in whitespace.
pub proof fn lemma_interface_name_is_bare(stdout: Seq<char>)
    ensures
        interface_name(stdout).is_prefix_of(stdout),
        one_line(interface_name(stdout)),
        interface_name(stdout).len() > 0 ==> !is_space(interface_name(stdout).last()),
{
    let line = first_line(stdout);
    let name = interface_name(stdout);
    lemma_position_of(stdout, '\n');
    lemma_trimmed_end(line);
    assert(name =~= stdout.subrange(0, name.len() as int)) by {
        assert(name =~= line.subrange(0, name.len() as int));
    }
    assert forall|k: int| 0 <= k < name.len() implies name[k] != '\n' by {
        assert(name[k] == line.subrange(0, name.len() as int)[k]);
        assert(line[k] == stdout[k]);
        assert(k < position_of(stdout, '\n'));
    }
}

/// The interface that the answer to [`default_route`] names. The discovery
/// has failed where the command did not exit with status zero and where it
/// named no interface, as it does on a host without a default route.
pub open spec fn discovered_interface(output: CommandOutputView) -> Result<Seq<char>, FailureView> {
    if output.succeeded() && interface_name(output.stdout).len() > 0 {
        Ok(interface_name(output.stdout))
    } else {
        Err(
            FailureView {
                error: WgInitErrors::FailedToGetDefaultDevice,
                message: Seq::empty(),
                diagnostic: output.stderr,
            },
        )
    }
}

/// Reads the default interface from the answer to [`default_route`].
pub fn interface_from_output(output: &CommandOutput) -> (r: Result<NetworkInterface, Failure>)
    ensures
        match r {
            Ok(iface) => discovered_interface(output@) == Ok::<Seq<char>, FailureView>(iface@),
            Err(f) => discovered_interface(output@) == Err::<Seq<char>, FailureView>(f@),
        },
{
    let chars = chars_of(output.stdout.as_str());
    let line_end = find_from(chars.as_slice(), 0, '\n');
    let len = trimmed_len(chars.as_slice(), line_end);
    assert(chars@.skip(0) =~= chars@);
    assert(chars@.take(len as int) == interface_name(output@.stdout));
    if output.succeeded() && len > 0 {
        let name = output.stdout.as_str().substring_char(0, len).to_owned();
        assert(name@ =~= chars@.take(len as int));
        Ok(NetworkInterface { name })
    } else {
        proof {
            reveal_strlit("");
        }
        assert(""@ =~= Seq::<char>::empty());
        Err(Failure::new(WgInitErrors::FailedToGetDefaultDevice, "", output.stderr.as_str()))
    }
}

} // verus!
