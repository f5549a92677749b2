use vstd::prelude::*;
use crate::app::format::HeaderWriter;
use crate::app::function_code::FunctionCode;
use crate::app::header::WriteError;
use crate::app::parse::{CountVariation, Response, single, spec_single};
use crate::master::error::TaskError;
use crate::util::time::Millis;

verus! {

/// The kind of restart to ask an outstation for.
#[derive(Copy, Clone, Debug, PartialEq, Eq, Structural)]
pub enum RestartType {
    /// a complete restart, as after a long loss of power
    ColdRestart,
    /// a partial restart
    WarmRestart,
}

/// The task of asking an outstation to restart and learning how long the
/// restart will take.
#[derive(Copy, Clone, Debug, PartialEq, Eq, Structural)]
pub struct RestartTask {
    restart_type: RestartType,
}

/// The tasks of a master other than reads.
#[derive(Copy, Clone, Debug, PartialEq, Eq, Structural)]
pub enum NonReadTask {
    /// ask the outstation to restart
    Restart(RestartTask),
}

impl RestartType {
    /// The function code that asks for this kind of restart.
    pub open spec fn spec_function(&self) -> FunctionCode {
        match self {
            RestartType::ColdRestart => FunctionCode::ColdRestart,
            RestartType::WarmRestart => FunctionCode::WarmRestart,
        }
    }

    /// The function code that asks for this kind of restart.
    pub fn function(&self) -> (f: FunctionCode)
        ensures
            f == self.spec_function(),
    {
        match self {
            RestartType::ColdRestart => FunctionCode::ColdRestart,
            RestartType::WarmRestart => FunctionCode::WarmRestart,
        }
    }
}

/// What a response to a restart request tells: the delay that it reports,
/// when it holds exactly one header with exactly one time delay, coarse
/// for seconds or fine for milliseconds.
pub open spec fn spec_restart_delay(response: &Response) -> Result<Millis, TaskError> {
    match response.objects {
        Err(err) => Err(TaskError::MalformedResponse(err)),
        Ok(headers) => match headers.spec_only_header() {
            None => Err(TaskError::UnexpectedResponseHeaders),
            Some(header) => match header.details.spec_count() {
                None => Err(TaskError::UnexpectedResponseHeaders),
                Some(CountVariation::Group52Var1(v)) => match spec_single(v@) {
                    Some(delay) => Ok(Millis { millis: (delay.time * 1000) as u64 }),
                    None => Err(TaskError::UnexpectedResponseHeaders),
                },
                Some(CountVariation::Group52Var2(v)) => match spec_single(v@) {
                    Some(delay) => Ok(Millis { millis: delay.time as u64 }),
                    None => Err(TaskError::UnexpectedResponseHeaders),
                },
                Some(_) => Err(TaskError::UnexpectedResponseHeaders),
            },
        },
    }
}

impl RestartTask {
    /// The kind of restart asked for.
    pub closed spec fn restart_type(&self) -> RestartType {
        self.restart_type
    }

    /// The task of asking for a restart of the given kind.
    pub fn new(restart_type: RestartType) -> (t: RestartTask)
        ensures
            t.restart_type() == restart_type,
    {
        RestartTask { restart_type }
    }

    /// The task among the tasks of a master.
    pub fn wrap(self) -> (t: NonReadTask)
        ensures
            t == NonReadTask::Restart(self),
    {
        NonReadTask::Restart(self)
    }

    /// The function code of the request.
    pub fn function(&self) -> (f: FunctionCode)
        ensures
            f == self.restart_type().spec_function(),
    {
        self.restart_type.function()
    }

    /// The outcome of the task when it failed with `err`.
    pub fn on_task_error(self, err: TaskError) -> (outcome: Result<Millis, TaskError>)
        ensures
            outcome == Err::<Millis, TaskError>(err),
    {
        Err(err)
    }

    /// Reads the outcome of the task from the response: the delay that the
    /// outstation reports. A response whose objects could not be read is
    /// malformed; one that holds anything but a single time delay is
    /// unexpected.
    pub fn handle(self, response: &Response) -> (outcome: Result<Millis, TaskError>)
        ensures
            outcome == spec_restart_delay(response),
    {
        let headers = match &response.objects {
            Ok(x) => x,
            Err(err) => {
                return Err(TaskError::MalformedResponse(*err));
            },
        };
        let header = match headers.get_only_header() {
            Some(x) => x,
            None => {
                return Err(TaskError::UnexpectedResponseHeaders);
            },
        };
        let count = match header.details.count() {
            Some(x) => x,
            None => {
                return Err(TaskError::UnexpectedResponseHeaders);
            },
        };
        match count {
            CountVariation::Group52Var1(val) => match single(val) {
                Some(val) => {
                    let secs: u64 = val.time as u64;
                    Ok(Millis::from_secs(secs))
                },
                None => Err(TaskError::UnexpectedResponseHeaders),
            },
            CountVariation::Group52Var2(val) => match single(val) {
                Some(val) => {
                    let millis: u64 = val.time as u64;
                    Ok(Millis::from_millis(millis))
                },
                None => Err(TaskError::UnexpectedResponseHeaders),
            },
            _ => Err(TaskError::UnexpectedResponseHeaders),
        }
    }
}

impl NonReadTask {
    /// Starts the task. A restart needs no preparation: the task goes on
    /// as it is.
    pub fn start(self) -> (t: Option<NonReadTask>)
        ensures
            t == Some(self),
    {
        Some(self)
    }

    /// Writes the objects of the task's request. A restart request
    /// carries none.
    pub fn write(&self, writer: &mut HeaderWriter) -> (r: Result<(), WriteError>)
        ensures
            r is Ok,
            final(writer)@ == old(writer)@,
    {
        match self {
            NonReadTask::Restart(_) => Ok(()),
        }
    }

    /// The function code of the task's request.
    pub fn function(&self) -> (f: FunctionCode)
        ensures
            f == match self {
                NonReadTask::Restart(task) => task.restart_type().spec_function(),
            },
    {
        match self {
            NonReadTask::Restart(task) => task.function(),
        }
    }

    /// Reads the outcome of the task from the response. The task is over
    /// with that: no task follows.
    pub fn handle(self, response: &Response) -> (r: (
        Option<NonReadTask>,
        Result<Millis, TaskError>,
    ))
        ensures
            r.0 is None,
            r.1 == spec_restart_delay(response),
    {
        match self {
            NonReadTask::Restart(task) => (None, task.handle(response)),
        }
    }
}

} // verus!
