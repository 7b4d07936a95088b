//! A level-triggered reconciler for the `Foo` custom resource.
//!
//! A `Foo` declares a workload: a Deployment of a given name with a given number of
//! replicas. The reconciler keeps the cluster in line with the declaration. It adds a
//! finalizer to every `Foo`, applies the workload that the `Foo` asks for, reports the
//! replica count that the cluster acknowledged, and, once the `Foo` is marked for
//! deletion, deletes the workload before it lets go of the finalizer.
//!
//! The library decides and does not act. [`controller::reconcile`] and
//! [`controller::resume`] say which call to make next; the program that embeds the library
//! makes the calls and hands back the answers. What holds of every reconciliation is
//! proved in [`guarantees`].

pub mod controller;
pub mod crd;
pub mod deployment;
pub mod error;
pub mod guarantees;
pub mod meta;
pub mod patch;
pub mod protocol;
pub mod translate;
