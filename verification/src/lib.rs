//! Verified core of an epoll-style readiness reactor.
//!
//! A reactor watches resources for readiness, reports it as events under the
//! token of each registration, and wakes the tasks that wait for it. This
//! crate holds the decisions of such a reactor, each as a function with a
//! contract that Verus proves:
//!
//! - [`ready`], [`unix_ready`], [`poll_opt`]: the sets of readiness kinds
//!   and of registration options, with their algebra;
//! - [`token`], [`event`]: what ties an event to a registration;
//! - [`table`]: the allocation of tokens;
//! - [`selector`], [`evented`]: what is asked of the multiplexer for a
//!   registration, and what its event records mean;
//! - [`registration`]: readiness that is set by hand, from any thread;
//! - [`awakener`]: the self-pipe that interrupts a blocking wait;
//! - [`direction`], [`reactor`], [`poll_evented`]: the readiness cached for
//!   the read and write direction of each resource, and the tasks that
//!   suspend on it;
//! - [`sys`], [`ucred`]: what the outcomes of system calls mean.
//!
//! Nothing here makes a system call, blocks or shares state between
//! threads. The program around this crate does that: it makes the calls and
//! hands their outcomes to these functions, and it carries out what they
//! answer.

pub mod awakener;
pub mod bits;
pub mod direction;
pub mod event;
pub mod evented;
pub mod names;
pub mod poll_evented;
pub mod poll_opt;
pub mod reactor;
pub mod ready;
pub mod registration;
pub mod selector;
pub mod sys;
pub mod table;
pub mod token;
pub mod ucred;
pub mod unix_ready;
pub mod vecio;
