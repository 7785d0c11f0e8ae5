//! Running the whole stack until interrupted.
use vstd::prelude::*;

verus! {

/// One start or stop of a service of the stack.
#[derive(Clone, Copy, Debug, PartialEq, Eq, Structural)]
pub enum ServiceTask {
    RunPostgreSql,
    RunPhp,
    RunFrontend,
    StopPostgreSql,
    StopPhp,
    StopFrontend,
}

/// The starts of the stack, in order: the database first.
pub fn orchestrator_startup() -> (v: Vec<ServiceTask>)
    ensures
        v@ == seq![ServiceTask::RunPostgreSql, ServiceTask::RunPhp, ServiceTask::RunFrontend],
{
    let mut v: Vec<ServiceTask> = Vec::new();
    v.push(ServiceTask::RunPostgreSql);
    v.push(ServiceTask::RunPhp);
    v.push(ServiceTask::RunFrontend);
    proof {
        assert(v@ =~= seq![ServiceTask::RunPostgreSql, ServiceTask::RunPhp, ServiceTask::RunFrontend]);
    }
    v
}

/// The stops of the stack when it is interrupted, in order.
pub fn orchestrator_shutdown() -> (v: Vec<ServiceTask>)
    ensures
        v@ == seq![ServiceTask::StopPostgreSql, ServiceTask::StopPhp, ServiceTask::StopFrontend],
{
    let mut v: Vec<ServiceTask> = Vec::new();
    v.push(ServiceTask::StopPostgreSql);
    v.push(ServiceTask::StopPhp);
    v.push(ServiceTask::StopFrontend);
    proof {
        assert(v@ =~= seq![ServiceTask::StopPostgreSql, ServiceTask::StopPhp, ServiceTask::StopFrontend]);
    }
    v
}

} // verus!
