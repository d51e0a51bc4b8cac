//! The console nodes of the device filesystem.

use vstd::prelude::*;

use crate::tty::{Role, Tty};
use crate::tty_state::TtyState;

verus! {

/// A node to be added to `/dev` under `name`.
pub struct DevNode {
    /// Name of the node in `/dev`.
    pub name: &'static str,
    /// The node.
    pub tty: Tty,
}

/// The role of the node that `/dev` holds at position `i`.
pub open spec fn dev_role(i: int) -> Role {
    if i == 0 {
        Role::Stdin
    } else if i == 1 {
        Role::Stdout
    } else if i == 2 {
        Role::Stderr
    } else {
        Role::GenericTty
    }
}

/// The name of the node that `/dev` holds at position `i`.
pub open spec fn dev_name(i: int) -> Seq<char> {
    if i == 0 {
        "stdin"@
    } else if i == 1 {
        "stdout"@
    } else if i == 2 {
        "stderr"@
    } else {
        "tty"@
    }
}

/// Creates the console nodes of the device filesystem, to be added to
/// `/dev` in order: `stdin`, `stdout`, `stderr` and `tty`, each in its
/// role and in the initial control state.
pub fn init_devfs() -> (nodes: Vec<DevNode>)
    ensures
        nodes@.len() == 4,
        forall|i: int|
            0 <= i < 4 ==> {
                &&& (#[trigger] nodes@[i]).name@ == dev_name(i)
                &&& nodes@[i].tty@.role == dev_role(i)
                &&& TtyState::is_initial(nodes@[i].tty@.state)
            },
{
    let mut nodes: Vec<DevNode> = Vec::new();
    nodes.push(DevNode { name: "stdin", tty: Tty::with_role(Role::Stdin) });
    nodes.push(DevNode { name: "stdout", tty: Tty::with_role(Role::Stdout) });
    nodes.push(DevNode { name: "stderr", tty: Tty::with_role(Role::Stderr) });
    nodes.push(DevNode { name: "tty", tty: Tty::with_role(Role::GenericTty) });
    nodes
}

} // verus!
