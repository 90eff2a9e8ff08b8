//! The process scheduling step: run-to-block semantics, syscall dispatch and
//! fault handling.
//!
//! One process at a time is driven through a run/trap/dispatch cycle. The
//! decisions of that cycle are pure functions from the process's control
//! state (and the timer state) to the next state and an action; the
//! surrounding board code performs the actions -- resuming the process's
//! execution context, calling into a driver, scheduling an IPC callback --
//! and reports back what happened. Exactly one process executes user code at
//! a time: the loop never asks for a second resume before the current
//! process yielded, faulted or exhausted its budget.

use vstd::prelude::*;
use crate::pmp::{GrowRegionError, PMPConfig, PMPRegion, Permissions, no_overlap, spec_cfg_byte, spec_granted_size};

verus! {

/// Fixed time-slice budget, in timer ticks, the loop arms the countdown
/// timer with before each pass over a process.
pub const SYSTICK_BUDGET: usize = 10000;

/// Remaining timer budget below which no resume is started, so that a
/// resume that could not complete safely is never begun.
pub const SYSTICK_LOW_WATER: usize = 500;

/// Syscall numbers of the kernel's trap interface.
pub const SYSCALL_YIELD: u8 = 0;

pub const SYSCALL_SUBSCRIBE: u8 = 1;

pub const SYSCALL_COMMAND: u8 = 2;

pub const SYSCALL_ALLOW: u8 = 3;

pub const SYSCALL_MEMOP: u8 = 4;

/// Syscall return value for success.
pub const RETURN_SUCCESS: usize = 0;

/// Syscall return value for failure (the two's-complement image of -1).
pub const RETURN_FAIL: usize = usize::MAX;

/// Syscall return value for an unsupported request (the image of -2).
pub const RETURN_NOSUPPORT: usize = usize::MAX - 1;

/// Execution state of a process.
#[derive(Copy, Clone, PartialEq, Eq, Structural, Debug)]
pub enum State {
    /// May execute user code when scheduled.
    Running,
    /// Waiting for a callback; only queued tasks may run.
    Yielded,
    /// Hit a fault; never resumed again.
    Fault,
}

/// A queued callback into the process.
#[derive(Copy, Clone, PartialEq, Eq, Structural, Debug)]
pub struct FunctionCall {
    pub pc: usize,
    pub r0: usize,
    pub r1: usize,
    pub r2: usize,
    pub r3: usize,
}

/// A task waiting in a process's pending queue.
#[derive(Copy, Clone, PartialEq, Eq, Structural, Debug)]
pub enum Task {
    /// A callback to push onto the process's own call stack.
    FunctionCall(FunctionCall),
    /// A cross-process IPC notification: the other process and the IPC kind.
    IPC(usize, usize),
}

/// The control state of one process, as the scheduling step reads and
/// writes it. The board's process table owns one per process.
pub struct Process {
    /// Execution state.
    pub state: State,
    /// Pending tasks, dequeued front first.
    pub tasks: Vec<Task>,
    /// Whether the last resume ended in a syscall trap.
    pub syscall_fired: bool,
    /// Whether the last resume ended in a fault.
    pub app_fault: bool,
    /// Number of the trapped syscall, if any.
    pub svc_number: Option<u8>,
    /// Syscall argument and return registers.
    pub r0: usize,
    pub r1: usize,
    pub r2: usize,
    pub r3: usize,
    /// First address of the memory granted to the process.
    pub mem_start: usize,
    /// First address past the memory exposed to the process.
    pub mem_end: usize,
    /// Current application heap break, as an address.
    pub app_break: usize,
    /// Start of the kernel-reserved part of the process's memory.
    pub kernel_break: usize,
}

/// What the board must do next for the scheduled process.
#[derive(Copy, Clone, PartialEq, Eq, Structural, Debug)]
pub enum LoopAction {
    /// Leave the loop: the time budget ran out, an interrupt is pending, or
    /// the process has nothing to do. Control returns to the outer
    /// scheduler.
    Suspend,
    /// Write the protection configuration for this process and resume its
    /// saved execution context.
    Resume,
    /// Push this callback onto the process's call stack and resume.
    RunCallback(FunctionCall),
    /// Forward this notification (other process, IPC kind) to the IPC
    /// dispatcher, then iterate again.
    ScheduleIpc(usize, usize),
    /// The process is faulted: signal the fault upward and stop dispatching
    /// for this process. The fault policy is the board's.
    FaultHalt,
}

/// Whether an iteration may start at all: not when an interrupt is already
/// pending, the timer overflowed, or the remaining budget is below the low
/// water mark.
pub open spec fn spec_out_of_budget(
    has_pending_interrupts: bool,
    systick_overflowed: bool,
    systick_value: usize,
) -> bool {
    has_pending_interrupts || systick_overflowed || systick_value <= SYSTICK_LOW_WATER
}

impl Process {
    /// A runnable process over the memory `[mem_start, mem_end)` with
    /// nothing pending.
    pub fn new(mem_start: usize, mem_end: usize) -> (p: Process)
        ensures
            p.state == State::Running,
            p.tasks@.len() == 0,
            p.mem_start == mem_start,
            p.mem_end == mem_end,
            p.app_break == mem_start,
            p.kernel_break == mem_end,
            !p.syscall_fired,
            !p.app_fault,
            p.svc_number is None,
            p.r0 == 0 && p.r1 == 0 && p.r2 == 0 && p.r3 == 0,
    {
        Process {
            state: State::Running,
            tasks: Vec::new(),
            syscall_fired: false,
            app_fault: false,
            svc_number: None,
            r0: 0,
            r1: 0,
            r2: 0,
            r3: 0,
            mem_start,
            mem_end,
            app_break: mem_start,
            kernel_break: mem_end,
        }
    }

    /// Appends a task to the pending queue; it runs once the process has
    /// yielded.
    pub fn enqueue_task(&mut self, task: Task)
        requires
            old(self).tasks@.len() < usize::MAX,
        ensures
            final(self).tasks@ == old(self).tasks@.push(task),
            *final(self) == (Process { tasks: final(self).tasks, ..*old(self) }),
    {
        self.tasks.push(task);
    }

    /// Whether `[start, start + size)` lies entirely within the memory the
    /// process exposed; buffers outside it may not be shared with drivers.
    pub fn in_exposed_bounds(&self, start: usize, size: usize) -> (b: bool)
        requires
            start + size <= usize::MAX,
        ensures
            b == (self.mem_start <= start && start + size <= self.mem_end),
    {
        self.mem_start <= start && start + size <= self.mem_end
    }
}

/// One decision of the scheduling loop for a chosen process, taken before
/// any resume: what to do given the process state and the timer.
///
/// An exhausted budget always suspends. A running process is resumed; a
/// yielded process runs its first queued task, or suspends when none is
/// queued; a faulted process is never resumed but reported. Dequeued
/// function-call tasks are removed from the queue.
pub fn schedule_iteration(
    process: &mut Process,
    has_pending_interrupts: bool,
    systick_overflowed: bool,
    systick_value: usize,
) -> (action: LoopAction)
    ensures
        (spec_out_of_budget(has_pending_interrupts, systick_overflowed, systick_value)
            ==> action == LoopAction::Suspend && *final(process) == *old(process)),
        (!spec_out_of_budget(has_pending_interrupts, systick_overflowed, systick_value)
            ==> match old(process).state {
            State::Running => action == LoopAction::Resume && *final(process) == *old(process),
            State::Fault => action == LoopAction::FaultHalt && *final(process) == *old(process),
            State::Yielded => {
                if old(process).tasks@.len() == 0 {
                    action == LoopAction::Suspend && *final(process) == *old(process)
                } else {
                    &&& final(process).tasks@ == old(process).tasks@.skip(1)
                    &&& *final(process) == (Process {
                        tasks: final(process).tasks,
                        ..*old(process)
                    })
                    &&& match old(process).tasks@[0] {
                        Task::FunctionCall(cb) => action == LoopAction::RunCallback(cb),
                        Task::IPC(other, kind) => action == LoopAction::ScheduleIpc(other, kind),
                    }
                }
            }
        }),
{
    if has_pending_interrupts || systick_overflowed || systick_value <= SYSTICK_LOW_WATER {
        return LoopAction::Suspend;
    }
    match process.state {
        State::Running => LoopAction::Resume,
        State::Fault => {
            // This loop does not recover processes; the fault policy above
            // it decides the process's disposition.
            LoopAction::FaultHalt
        }
        State::Yielded => {
            if process.tasks.len() == 0 {
                return LoopAction::Suspend;
            }
            let task = process.tasks.remove(0);
            match task {
                Task::FunctionCall(cb) => LoopAction::RunCallback(cb),
                Task::IPC(other, kind) => LoopAction::ScheduleIpc(other, kind),
            }
        }
    }
}

/// A request the scheduling step hands to the board for dispatch to the
/// registered driver of `driver_num`; the board writes the driver's return
/// value back through `Process::r0` via `store_result`.
#[derive(Copy, Clone, PartialEq, Eq, Structural, Debug)]
pub enum DriverRequest {
    Subscribe { driver_num: usize, subdriver_num: usize, callback_ptr: usize, appdata: usize },
    Command { driver_num: usize, cmd_num: usize, arg: usize },
    Allow { driver_num: usize, allow_num: usize, start: usize, size: usize },
}

/// What the scheduling step decided after a resume returned to the kernel.
#[derive(Copy, Clone, PartialEq, Eq, Structural, Debug)]
pub enum SyscallDecision {
    /// No syscall was issued: the time slice is exhausted or the process
    /// blocked; leave the loop.
    Suspend,
    /// The process faulted while executing; iterate again so the fault
    /// state is acted on.
    Faulted,
    /// The syscall was handled inside the kernel; iterate again.
    Handled,
    /// Forward this request to the board's driver table, then store the
    /// driver's result.
    Driver(DriverRequest),
}

/// The break address a memory-break request of kind 0 or 1 asks for: the
/// absolute address in `r1` for kind 0, the current break moved by the
/// signed amount in `r1` for kind 1; nothing when the move leaves the
/// address space.
pub open spec fn spec_memop_target(p: Process) -> Option<int> {
    if p.r0 == 0 {
        Some(p.r1 as int)
    } else {
        let delta = p.r1 as isize;
        if delta == isize::MIN {
            None
        } else if 0 <= p.app_break + delta <= usize::MAX {
            Some(p.app_break + delta)
        } else {
            None
        }
    }
}

/// The growable slot's descriptor stays representable when resized to
/// `kernel_offset` bytes: a machine limit on the rounded end address.
pub open spec fn spec_memop_representable(c: PMPConfig, kernel_offset: int) -> bool {
    match c.app_region {
        Some(i) => match c.regions@[i as int] {
            Some(region) => kernel_offset <= usize::MAX - 11 && region.start <= usize::MAX - 11
                - kernel_offset,
            None => true,
        },
        None => true,
    }
}

/// The exact outcome of a memory-break request, relating process and
/// configuration before (`p`, `c`) and after (`p2`, `c2`): an unknown
/// request kind, an overflowing move, a target outside
/// `[mem_start, kernel_break]`, an unrepresentable resize or a missing
/// growable region leave everything unchanged but the result register;
/// otherwise the growable slot is resized to the kernel-break offset, the
/// break moves to the target, and the result register holds 0 for an
/// absolute move and the new break for a relative one.
pub open spec fn memop_outcome(p: Process, c: PMPConfig, p2: Process, c2: PMPConfig) -> bool {
    if p.r0 != 0 && p.r0 != 1 {
        p2 == (Process { r0: RETURN_NOSUPPORT, ..p }) && c2 == c
    } else {
        match spec_memop_target(p) {
            None => p2 == (Process { r0: RETURN_FAIL, ..p }) && c2 == c,
            Some(target) => {
                let kernel_offset = p.kernel_break - p.mem_start;
                if !(p.mem_start <= target <= p.kernel_break) {
                    p2 == (Process { r0: RETURN_FAIL, ..p }) && c2 == c
                } else if !spec_memop_representable(c, kernel_offset) {
                    p2 == (Process { r0: RETURN_FAIL, ..p }) && c2 == c
                } else if c.app_region is None {
                    p2 == (Process { r0: RETURN_FAIL, ..p }) && c2 == c
                } else {
                    let old_app = c.regions@[c.app_region->0 as int]->0;
                    let g = PMPRegion {
                        start: old_app.start,
                        size: spec_granted_size(kernel_offset) as usize,
                        cfg: spec_cfg_byte(Permissions::ReadWriteOnly),
                    };
                    &&& p2 == (Process {
                        app_break: target as usize,
                        r0: if p.r0 == 1 {
                            target as usize
                        } else {
                            RETURN_SUCCESS
                        },
                        ..p
                    })
                    &&& c2.regions@.to_multiset() == c.regions@.to_multiset().insert(
                        Some(g),
                    ).remove(Some(old_app))
                    &&& c2.is_dirty
                    &&& c2.app_region is Some
                    &&& (no_overlap(c.regions@) ==> c2.regions@[c2.app_region->0 as int] == Some(
                        g,
                    ))
                }
            }
        }
    }
}

/// Inspects why a resume returned control to the kernel and dispatches the
/// trapped syscall, as one iteration of the scheduling loop does after the
/// process ran.
///
/// Without a syscall trap the loop is left. A fault moves the process to
/// the fault state. A yield moves it to the yielded state. A memory-break
/// request is served right here through the growable-region machinery of the
/// process's own protection configuration. Subscribe, command and allow are
/// forwarded verbatim to the registered driver, except that an allow buffer
/// outside the process's exposed memory is rejected locally as an addressing
/// error, not propagated as a fault. An unknown syscall number is ignored.
pub fn dispatch_syscall(process: &mut Process, config: &mut PMPConfig) -> (d: SyscallDecision)
    requires
        old(config).wf(),
        old(process).mem_start <= old(process).app_break,
        old(process).mem_start <= old(process).kernel_break,
    ensures
        final(config).wf(),
        (!old(process).syscall_fired ==> d == SyscallDecision::Suspend
            && *final(process) == *old(process) && *final(config) == *old(config)),
        (old(process).syscall_fired && old(process).app_fault ==> d == SyscallDecision::Faulted
            && *final(process) == (Process { state: State::Fault, ..*old(process) })
            && *final(config) == *old(config)),
        (old(process).syscall_fired && !old(process).app_fault && old(process).svc_number is None
            ==> d == SyscallDecision::Handled && *final(process) == *old(process)
                && *final(config) == *old(config)),
        (old(process).syscall_fired && !old(process).app_fault && old(process).svc_number == Some(
            SYSCALL_MEMOP,
        ) ==> d == SyscallDecision::Handled
            && memop_outcome(*old(process), *old(config), *final(process), *final(config))),
        (old(process).syscall_fired && !old(process).app_fault && old(process).svc_number == Some(
            SYSCALL_YIELD,
        ) ==> d == SyscallDecision::Handled && *final(process) == (Process {
            state: State::Yielded,
            ..*old(process)
        }) && *final(config) == *old(config)),
        (old(process).syscall_fired && !old(process).app_fault && old(process).svc_number == Some(
            SYSCALL_SUBSCRIBE,
        ) ==> d == SyscallDecision::Driver(DriverRequest::Subscribe {
            driver_num: old(process).r0,
            subdriver_num: old(process).r1,
            callback_ptr: old(process).r2,
            appdata: old(process).r3,
        }) && *final(process) == *old(process) && *final(config) == *old(config)),
        (old(process).syscall_fired && !old(process).app_fault && old(process).svc_number == Some(
            SYSCALL_COMMAND,
        ) ==> d == SyscallDecision::Driver(DriverRequest::Command {
            driver_num: old(process).r0,
            cmd_num: old(process).r1,
            arg: old(process).r2,
        }) && *final(process) == *old(process) && *final(config) == *old(config)),
        (old(process).syscall_fired && !old(process).app_fault && old(process).svc_number == Some(
            SYSCALL_ALLOW,
        ) ==> ({
            let start = old(process).r2;
            let size = old(process).r3;
            let inside = start + size <= usize::MAX && old(process).mem_start <= start && start
                + size <= old(process).mem_end;
            &&& (inside ==> d == SyscallDecision::Driver(DriverRequest::Allow {
                driver_num: old(process).r0,
                allow_num: old(process).r1,
                start: start,
                size: size,
            }) && *final(process) == *old(process))
            &&& (!inside ==> d == SyscallDecision::Handled && *final(process) == (Process {
                r0: RETURN_FAIL,
                ..*old(process)
            }))
            &&& *final(config) == *old(config)
        })),
{
    // No syscall: the time slice ran out or the process blocked awaiting an
    // interrupt.
    if !process.syscall_fired {
        return SyscallDecision::Suspend;
    }

    // The process faulted during execution: record it and let the next
    // iteration react.
    if process.app_fault {
        process.state = State::Fault;
        return SyscallDecision::Faulted;
    }

    let svc = match process.svc_number {
        Some(n) => n,
        None => {
            return SyscallDecision::Handled;
        }
    };
    if svc == SYSCALL_MEMOP {
        handle_memop(process, config);
        SyscallDecision::Handled
    } else if svc == SYSCALL_YIELD {
        process.state = State::Yielded;
        // There might be already enqueued callbacks: iterate again without
        // consuming a full resume.
        SyscallDecision::Handled
    } else if svc == SYSCALL_SUBSCRIBE {
        SyscallDecision::Driver(DriverRequest::Subscribe {
            driver_num: process.r0,
            subdriver_num: process.r1,
            callback_ptr: process.r2,
            appdata: process.r3,
        })
    } else if svc == SYSCALL_COMMAND {
        SyscallDecision::Driver(DriverRequest::Command {
            driver_num: process.r0,
            cmd_num: process.r1,
            arg: process.r2,
        })
    } else if svc == SYSCALL_ALLOW {
        let start = process.r2;
        let size = process.r3;
        // The buffer must lie entirely within the process's exposed memory
        // before it may be handed to a driver.
        if size <= usize::MAX - start && process.mem_start <= start && start + size
            <= process.mem_end {
            SyscallDecision::Driver(DriverRequest::Allow {
                driver_num: process.r0,
                allow_num: process.r1,
                start,
                size,
            })
        } else {
            process.r0 = RETURN_FAIL;
            SyscallDecision::Handled
        }
    } else {
        SyscallDecision::Handled
    }
}

/// Serves a memory-break request: request kind in `r0` (0 moves the break
/// to the address in `r1`, 1 moves it by the signed amount in `r1`), result
/// in `r0`. The new break must stay within the process's memory and below
/// the kernel-reserved part; the protection configuration's growable region
/// is resized to the new boundary.
fn handle_memop(process: &mut Process, config: &mut PMPConfig)
    requires
        old(config).wf(),
        old(process).mem_start <= old(process).app_break,
        old(process).mem_start <= old(process).kernel_break,
    ensures
        final(config).wf(),
        final(process).mem_start == old(process).mem_start,
        final(process).mem_end == old(process).mem_end,
        final(process).kernel_break == old(process).kernel_break,
        final(process).mem_start <= final(process).app_break,
        final(process).state == old(process).state,
        final(process).tasks@ == old(process).tasks@,
        memop_outcome(*old(process), *old(config), *final(process), *final(config)),
{
    let brk_type = process.r0;
    let requested = process.r1;

    let new_break: Option<usize> = if brk_type == 0 {
        // BRK: move the break to an absolute address.
        Some(requested)
    } else if brk_type == 1 {
        // SBRK: move the break by a signed amount.
        let delta = requested as isize;
        if delta >= 0 {
            if process.app_break <= usize::MAX - (delta as usize) {
                Some(process.app_break + delta as usize)
            } else {
                None
            }
        } else if delta == isize::MIN {
            None
        } else {
            let down = (-delta) as usize;
            if down <= process.app_break {
                Some(process.app_break - down)
            } else {
                None
            }
        }
    } else {
        process.r0 = RETURN_NOSUPPORT;
        return;
    };

    let target = match new_break {
        Some(t) => t,
        None => {
            process.r0 = RETURN_FAIL;
            return;
        }
    };

    // The break may only move within [mem_start, kernel_break].
    if target < process.mem_start || target > process.kernel_break {
        process.r0 = RETURN_FAIL;
        return;
    }

    let app_offset = target - process.mem_start;
    let kernel_offset = process.kernel_break - process.mem_start;

    // The resized region must stay representable after rounding.
    let representable = match config.app_region {
        Some(i) => {
            match config.regions[i] {
                Some(region) => kernel_offset <= usize::MAX - 11 && region.start <= usize::MAX
                    - 11 - kernel_offset,
                None => true,
            }
        }
        None => true,
    };
    if !representable {
        process.r0 = RETURN_FAIL;
        return;
    }

    match config.update_app_memory_region(app_offset, kernel_offset, Permissions::ReadWriteOnly) {
        Ok(()) => {
            process.app_break = target;
            process.r0 = if brk_type == 1 {
                target
            } else {
                RETURN_SUCCESS
            };
        }
        Err(GrowRegionError::NotYetAllocated) => {
            process.r0 = RETURN_FAIL;
        }
        Err(GrowRegionError::OutOfMemory) => {
            process.r0 = RETURN_FAIL;
        }
    }
}

/// Stores a driver's return value into the process's result register, as the
/// loop does after a forwarded request completed.
pub fn store_result(process: &mut Process, value: usize)
    ensures
        *final(process) == (Process { r0: value, ..*old(process) }),
{
    process.r0 = value;
}

} // verus!
