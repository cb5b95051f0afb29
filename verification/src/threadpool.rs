//! The messages exchanged with a pool of workers, and what a worker does with
//! one of them.

use vstd::prelude::*;
use crate::monitor::{Command, MonitorSender};

verus! {

/// Where a job's result is sent.
pub type ResultsSender<T> = flume::Sender<ResultPacket<T>>;

/// Where a job's result is picked up.
pub type ResultsReceiver<T> = flume::Receiver<ResultPacket<T>>;

/// Where jobs are queued for the pool.
pub type JobsSender<T, F> = flume::Sender<Message<T, F>>;

/// Where the workers take their jobs from.
pub type JobsReceiver<T, F> = flume::Receiver<Message<T, F>>;

/// What a worker is sent.
#[verifier::reject_recursive_types(T)]
pub enum Message<T, F> {
    /// Evaluate a job and answer on its own channel.
    Job(JobPacket<T, F>),
    /// Stop working.
    Terminate,
}

/// A computation together with the channel on which its result is expected.
#[verifier::reject_recursive_types(T)]
pub struct JobPacket<T, F> {
    pub job: F,
    pub return_tx: ResultsSender<T>,
}

/// The result of one job.
pub struct ResultPacket<T> {
    pub result: T,
}

/// What a worker does with one message: a job is evaluated, its result sent
/// back on the job's own channel, and the monitor told to look again; a
/// termination marker only ends the worker.
///
/// Returns whether the worker goes on. A requester that is gone, or a monitor
/// that no longer listens, is not an error: the result or the notice is
/// dropped.
pub fn serve<T, F: Fn() -> T>(message: Message<T, F>, monitor_tx: &MonitorSender) -> (go_on: bool)
    requires
        message matches Message::Job(packet) ==> call_requires(packet.job, ()),
    ensures
        go_on == (message is Job),
{
    match message {
        Message::Terminate => false,
        Message::Job(packet) => {
            let result = answer(packet.job);
            let _ = packet.return_tx.send(result);
            let _ = monitor_tx.send(Command::Refresh);
            true
        },
    }
}

/// Tells `count` workers to stop: one termination marker for each, queued
/// behind the jobs that were sent before. Stops early where the queue is
/// abandoned, since then no worker is left to tell.
///
/// Returns how many markers were queued.
pub fn terminate<T, F>(jobs_tx: &JobsSender<T, F>, count: usize) -> (told: usize)
    ensures
        told <= count,
{
    let mut told: usize = 0;
    while told < count
        invariant
            told <= count,
        decreases count - told,
    {
        let sent = jobs_tx.send(Message::Terminate).is_ok();
        match after_marker(told, sent) {
            Some(next) => {
                told = next;
            },
            None => {
                return told;
            },
        }
    }
    told
}

/// How far the telling has come once one more marker was handed to the queue:
/// one worker further where the queue took it, and at its end (`None`) where
/// the queue is abandoned.
pub open spec fn marker_outcome(told: usize, sent: bool) -> Option<usize> {
    if sent {
        Some((told + 1) as usize)
    } else {
        None
    }
}

/// Takes in whether the queue took the marker handed to it after `told`
/// others.
pub fn after_marker(told: usize, sent: bool) -> (next: Option<usize>)
    requires
        told < usize::MAX,
    ensures
        next == marker_outcome(told, sent),
        next matches Some(further) ==> further == told + 1,
{
    if sent {
        Some(told + 1)
    } else {
        None
    }
}

/// The message that asks the pool to compute with `f` and to answer on
/// `return_tx`.
pub fn job_message<T, F: Fn() -> T>(f: F, return_tx: ResultsSender<T>) -> (message: Message<T, F>)
    ensures
        message == (Message::Job(JobPacket { job: f, return_tx })),
{
    Message::Job(JobPacket { job: f, return_tx })
}

/// Evaluates `job` and packs what it computed as the job's result.
pub fn answer<T, F: Fn() -> T>(job: F) -> (packet: ResultPacket<T>)
    requires
        call_requires(job, ()),
    ensures
        call_ensures(job, (), packet.result),
{
    ResultPacket { result: job() }
}

} // verus!
