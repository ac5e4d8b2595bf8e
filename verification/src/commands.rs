//! Commands that the menu bar sends to the application, and the queue that
//! carries them.

use vstd::prelude::*;

verus! {

/// A command from the menu bar.
#[derive(Debug, Clone, Copy, PartialEq, Eq, Structural)]
pub enum Command {
    /// Set resolution (width, height), from the Resolution submenu.
    SetResolution(u32, u32),
    /// Set frame rate, from the Frame Rate submenu.
    SetFps(u32),
}

/// Appends `cmd` to the pending commands.
pub fn push_command(queue: &mut Vec<Command>, cmd: Command)
    ensures
        final(queue)@ == old(queue)@.push(cmd),
{
    queue.push(cmd);
}

/// Takes all pending commands, oldest first, leaving none behind.
pub fn take_commands(queue: &mut Vec<Command>) -> (r: Vec<Command>)
    ensures
        r@ == old(queue)@,
        final(queue)@.len() == 0,
{
    let mut taken: Vec<Command> = Vec::new();
    std::mem::swap(queue, &mut taken);
    taken
}

/// The queue after pushing each of `cmds` in turn onto `queue`.
pub open spec fn after_pushes(queue: Seq<Command>, cmds: Seq<Command>) -> Seq<Command>
    decreases cmds.len(),
{
    if cmds.len() == 0 {
        queue
    } else {
        after_pushes(queue, cmds.drop_last()).push(cmds.last())
    }
}

/// Commands come out in the order they were pushed: pushing `cmds` onto an
/// empty queue and then taking gives back exactly `cmds`.
pub proof fn law_commands_in_order(cmds: Seq<Command>)
    ensures
        after_pushes(Seq::empty(), cmds) == cmds,
    decreases cmds.len(),
{
    if cmds.len() > 0 {
        law_commands_in_order(cmds.drop_last());
        assert(cmds.drop_last().push(cmds.last()) =~= cmds);
    }
}

} // verus!
