//! The scheduling step: budget gating, state transitions and syscall
//! dispatch.

use tock_core::pmp::{PMPConfig, Permissions};
use tock_core::sched::{
    dispatch_syscall, schedule_iteration, store_result, DriverRequest, FunctionCall, LoopAction,
    Process, State, SyscallDecision, Task, RETURN_FAIL, RETURN_NOSUPPORT, SYSCALL_ALLOW,
    SYSCALL_COMMAND, SYSCALL_MEMOP, SYSCALL_SUBSCRIBE, SYSCALL_YIELD,
};

#[test]
fn budget_gating_suspends() {
    let mut p = Process::new(0x2000, 0x4000);
    assert_eq!(
        schedule_iteration(&mut p, true, false, 10_000),
        LoopAction::Suspend
    );
    assert_eq!(
        schedule_iteration(&mut p, false, true, 10_000),
        LoopAction::Suspend
    );
    assert_eq!(
        schedule_iteration(&mut p, false, false, 500),
        LoopAction::Suspend
    );
    // With budget left, a running process is resumed.
    assert_eq!(
        schedule_iteration(&mut p, false, false, 10_000),
        LoopAction::Resume
    );
}

#[test]
fn yielded_runs_queued_tasks_in_order() {
    let mut p = Process::new(0x2000, 0x4000);
    p.state = State::Yielded;
    // Nothing queued: nothing to do.
    assert_eq!(
        schedule_iteration(&mut p, false, false, 10_000),
        LoopAction::Suspend
    );
    let cb = FunctionCall {
        pc: 0x80,
        r0: 1,
        r1: 2,
        r2: 3,
        r3: 4,
    };
    p.enqueue_task(Task::FunctionCall(cb));
    p.enqueue_task(Task::IPC(2, 1));
    assert_eq!(
        schedule_iteration(&mut p, false, false, 10_000),
        LoopAction::RunCallback(cb)
    );
    assert_eq!(
        schedule_iteration(&mut p, false, false, 10_000),
        LoopAction::ScheduleIpc(2, 1)
    );
    assert_eq!(
        schedule_iteration(&mut p, false, false, 10_000),
        LoopAction::Suspend
    );
}

#[test]
fn faulted_process_is_never_resumed() {
    let mut p = Process::new(0x2000, 0x4000);
    p.state = State::Fault;
    assert_eq!(
        schedule_iteration(&mut p, false, false, 10_000),
        LoopAction::FaultHalt
    );
}

#[test]
fn no_syscall_suspends_and_fault_is_recorded() {
    let mut config = PMPConfig::new(16);
    let mut p = Process::new(0x2000, 0x4000);
    p.syscall_fired = false;
    assert_eq!(dispatch_syscall(&mut p, &mut config), SyscallDecision::Suspend);

    p.syscall_fired = true;
    p.app_fault = true;
    assert_eq!(dispatch_syscall(&mut p, &mut config), SyscallDecision::Faulted);
    assert_eq!(p.state, State::Fault);
}

#[test]
fn yield_transitions_to_yielded() {
    let mut config = PMPConfig::new(16);
    let mut p = Process::new(0x2000, 0x4000);
    p.syscall_fired = true;
    p.svc_number = Some(SYSCALL_YIELD);
    assert_eq!(dispatch_syscall(&mut p, &mut config), SyscallDecision::Handled);
    assert_eq!(p.state, State::Yielded);
}

#[test]
fn driver_calls_are_forwarded_verbatim() {
    let mut config = PMPConfig::new(16);
    let mut p = Process::new(0x2000, 0x4000);
    p.syscall_fired = true;
    p.svc_number = Some(SYSCALL_SUBSCRIBE);
    p.r0 = 4;
    p.r1 = 0;
    p.r2 = 0x88;
    p.r3 = 0x99;
    assert_eq!(
        dispatch_syscall(&mut p, &mut config),
        SyscallDecision::Driver(DriverRequest::Subscribe {
            driver_num: 4,
            subdriver_num: 0,
            callback_ptr: 0x88,
            appdata: 0x99,
        })
    );

    p.svc_number = Some(SYSCALL_COMMAND);
    p.r1 = 2;
    p.r2 = 7;
    assert_eq!(
        dispatch_syscall(&mut p, &mut config),
        SyscallDecision::Driver(DriverRequest::Command {
            driver_num: 4,
            cmd_num: 2,
            arg: 7,
        })
    );

    // The driver's answer lands in the result register.
    store_result(&mut p, 123);
    assert_eq!(p.r0, 123);
}

#[test]
fn allow_validates_buffer_bounds() {
    let mut config = PMPConfig::new(16);
    let mut p = Process::new(0x2000, 0x4000);
    p.syscall_fired = true;
    p.svc_number = Some(SYSCALL_ALLOW);
    p.r0 = 4;
    p.r1 = 1;
    // A buffer inside the exposed memory is forwarded.
    p.r2 = 0x2100;
    p.r3 = 0x100;
    assert_eq!(
        dispatch_syscall(&mut p, &mut config),
        SyscallDecision::Driver(DriverRequest::Allow {
            driver_num: 4,
            allow_num: 1,
            start: 0x2100,
            size: 0x100,
        })
    );
    // A buffer reaching past the exposed memory is rejected locally as an
    // addressing error, not forwarded and not a fault.
    p.r2 = 0x3f00;
    p.r3 = 0x200;
    assert_eq!(dispatch_syscall(&mut p, &mut config), SyscallDecision::Handled);
    assert_eq!(p.r0, RETURN_FAIL);
    assert_eq!(p.state, State::Running);
}

#[test]
fn memory_break_goes_through_growable_region() {
    let mut config = PMPConfig::new(16);
    // The process owns [0x2000, 0x4000); its growable region was allocated
    // over that window.
    let granted = config
        .allocate_app_memory_region(0x2000, 0x2000, 0x1000, 0x400, 0x100, Permissions::ReadWriteOnly)
        .unwrap();
    assert_eq!(granted.0, 0x2000);

    let mut p = Process::new(0x2000, 0x4000);
    p.kernel_break = 0x3000;
    p.syscall_fired = true;
    p.svc_number = Some(SYSCALL_MEMOP);
    // BRK to 0x2800.
    p.r0 = 0;
    p.r1 = 0x2800;
    assert_eq!(dispatch_syscall(&mut p, &mut config), SyscallDecision::Handled);
    assert_eq!(p.r0, 0);
    assert_eq!(p.app_break, 0x2800);
    // The growable region was resized to the reserved boundary.
    let slot = config.app_region.unwrap();
    let region = config.regions[slot].unwrap();
    assert_eq!(region.start, 0x2000);
    assert_eq!(region.size, 0x1004);
    assert!(config.is_dirty);

    // A break outside the process's memory fails.
    p.r0 = 0;
    p.r1 = 0x5000;
    assert_eq!(dispatch_syscall(&mut p, &mut config), SyscallDecision::Handled);
    assert_eq!(p.r0, RETURN_FAIL);
    assert_eq!(p.app_break, 0x2800);

    // A relative move returns the new break address.
    p.r0 = 1;
    p.r1 = 0x100;
    assert_eq!(dispatch_syscall(&mut p, &mut config), SyscallDecision::Handled);
    assert_eq!(p.r0, 0x2900);
    assert_eq!(p.app_break, 0x2900);

    // An unknown request kind is answered with the no-support value.
    p.r0 = 7;
    p.r1 = 0;
    assert_eq!(dispatch_syscall(&mut p, &mut config), SyscallDecision::Handled);
    assert_eq!(p.r0, RETURN_NOSUPPORT);
    assert_eq!(p.app_break, 0x2900);
}
