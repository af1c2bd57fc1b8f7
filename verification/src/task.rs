//! Turning a unit of asynchronous work and its configuration into one
//! schedulable task.

use core::future::Future;
use core::marker::PhantomData;
use vstd::prelude::*;
use vstd::string::StringExecFns;

verus! {

/// A wrapper that the executor glue puts around a task's future before the
/// task is raced against cancellation.
#[derive(Debug, Copy, Clone, PartialEq, Eq, Structural)]
pub enum Layer {
    /// Catches a panic of the body, so that it is reported to the manager
    /// and never reaches the executor.
    PanicInterception,
    /// Measures the task's scheduling: the time from its wrapping to its
    /// first poll, and the liveness samples that go with it.
    Instrumentation,
}

/// The wrappers of a task, the innermost first: a critical task gets panic
/// interception first, and any task with metrics enabled gets
/// instrumentation last.
pub open spec fn layers_of(critical: bool, metrics: bool) -> Seq<Layer> {
    let inner = if critical {
        seq![Layer::PanicInterception]
    } else {
        Seq::<Layer>::empty()
    };
    if metrics {
        inner.push(Layer::Instrumentation)
    } else {
        inner
    }
}

/// A name as the sequence of its characters, where there is one.
pub open spec fn name_view(name: Option<String>) -> Option<Seq<char>> {
    match name {
        Some(n) => Some(n@),
        None => None,
    }
}

/// The configuration of a task that is not critical: a future, an optional
/// name, and whether its scheduling is measured.
#[derive(Debug)]
#[verifier::reject_recursive_types(T)]
pub struct TaskBuilder<'fut, F, T> where F: Future<Output = T> {
    fut: F,
    metrics: bool,
    name: Option<String>,
    _marker: PhantomData<&'fut ()>,
}

impl<'fut, F, T> TaskBuilder<'fut, F, T> where F: Future<Output = T> {
    /// The future to run.
    pub closed spec fn spec_future(&self) -> F {
        self.fut
    }

    /// The configured name.
    pub closed spec fn spec_name(&self) -> Option<Seq<char>> {
        name_view(self.name)
    }

    /// Whether metrics are enabled.
    pub closed spec fn spec_metrics(&self) -> bool {
        self.metrics
    }
}

impl<'fut, F, T> TaskBuilder<'fut, F, T> where F: Future<Output = T>, F: Send + 'fut {
    /// Starts the configuration of a task that runs `fut`: no name, no
    /// metrics.
    pub fn new(fut: F) -> (builder: Self)
        ensures
            builder.spec_future() == fut,
            builder.spec_name() is None,
            !builder.spec_metrics(),
    {
        Self { name: None, metrics: false, fut, _marker: PhantomData }
    }

    /// Names the task. A later name replaces an earlier one.
    pub fn name(self, name: &str) -> (builder: Self)
        ensures
            builder.spec_name() == Some(name@),
            builder.spec_future() == self.spec_future(),
            builder.spec_metrics() == self.spec_metrics(),
    {
        Self {
            name: Some(String::from_str(name)),
            metrics: self.metrics,
            fut: self.fut,
            _marker: PhantomData,
        }
    }

    /// Enables metrics for the task.
    pub fn with_metrics(self) -> (builder: Self)
        ensures
            builder.spec_metrics(),
            builder.spec_future() == self.spec_future(),
            builder.spec_name() == self.spec_name(),
    {
        Self { name: self.name, metrics: true, fut: self.fut, _marker: PhantomData }
    }

    /// Builds the task: not critical, with the configured future, name and
    /// metrics flag.
    pub fn build(self) -> (task: Task<'fut, F>)
        ensures
            !task.spec_critical(),
            task.spec_future() == self.spec_future(),
            task.spec_name() == self.spec_name(),
            task.spec_metrics() == self.spec_metrics(),
    {
        Task {
            fut: self.fut,
            critical: false,
            metrics: self.metrics,
            name: self.name,
            _marker: PhantomData,
        }
    }
}

impl<'fut, F> TaskBuilder<'fut, F, ()> where F: Future<Output = ()> {
    /// Makes the configuration that of a critical task. Only a future that
    /// returns unit can be made critical, and there is no other way to
    /// obtain a critical task.
    pub fn critical(self) -> (builder: CriticalTaskBuilder<'fut, F>)
        ensures
            builder.spec_future() == self.spec_future(),
            builder.spec_name() == self.spec_name(),
            builder.spec_metrics() == self.spec_metrics(),
    {
        CriticalTaskBuilder {
            fut: self.fut,
            name: self.name,
            metrics: self.metrics,
            _marker: PhantomData,
        }
    }
}

/// The configuration of a critical task: one whose panic stops every other
/// task of its manager.
#[derive(Debug)]
pub struct CriticalTaskBuilder<'fut, F> where F: Future<Output = ()> {
    fut: F,
    metrics: bool,
    name: Option<String>,
    _marker: PhantomData<&'fut ()>,
}

impl<'fut, F> CriticalTaskBuilder<'fut, F> where F: Future<Output = ()> {
    /// The future to run.
    pub closed spec fn spec_future(&self) -> F {
        self.fut
    }

    /// The configured name.
    pub closed spec fn spec_name(&self) -> Option<Seq<char>> {
        name_view(self.name)
    }

    /// Whether metrics are enabled.
    pub closed spec fn spec_metrics(&self) -> bool {
        self.metrics
    }
}

impl<'fut, F> CriticalTaskBuilder<'fut, F> where F: Future<Output = ()>, F: Send + 'fut {
    /// Names the task. A later name replaces an earlier one.
    pub fn name(self, name: &str) -> (builder: Self)
        ensures
            builder.spec_name() == Some(name@),
            builder.spec_future() == self.spec_future(),
            builder.spec_metrics() == self.spec_metrics(),
    {
        Self {
            name: Some(String::from_str(name)),
            metrics: self.metrics,
            fut: self.fut,
            _marker: PhantomData,
        }
    }

    /// Enables metrics for the task.
    pub fn with_metrics(self) -> (builder: Self)
        ensures
            builder.spec_metrics(),
            builder.spec_future() == self.spec_future(),
            builder.spec_name() == self.spec_name(),
    {
        Self { name: self.name, metrics: true, fut: self.fut, _marker: PhantomData }
    }

    /// Builds the task: critical, with the configured future, name and
    /// metrics flag.
    pub fn build(self) -> (task: Task<'fut, F>)
        ensures
            task.spec_critical(),
            task.spec_future() == self.spec_future(),
            task.spec_name() == self.spec_name(),
            task.spec_metrics() == self.spec_metrics(),
    {
        Task {
            fut: self.fut,
            critical: true,
            metrics: self.metrics,
            name: self.name,
            _marker: PhantomData,
        }
    }
}

/// A future tagged with its criticality, its name and whether it is
/// measured: the unit that a manager schedules.
pub struct Task<'fut, F> {
    fut: F,
    critical: bool,
    metrics: bool,
    name: Option<String>,
    _marker: PhantomData<&'fut ()>,
}

impl<'fut, F> Task<'fut, F> {
    /// The future to run.
    pub closed spec fn spec_future(&self) -> F {
        self.fut
    }

    /// Whether the task is critical.
    pub closed spec fn spec_critical(&self) -> bool {
        self.critical
    }

    /// The task's name.
    pub closed spec fn spec_name(&self) -> Option<Seq<char>> {
        name_view(self.name)
    }

    /// Whether the task's scheduling is measured.
    pub closed spec fn spec_metrics(&self) -> bool {
        self.metrics
    }

    /// Whether the task is critical.
    pub fn is_critical(&self) -> (critical: bool)
        ensures
            critical == self.spec_critical(),
    {
        self.critical
    }

    /// Whether the task's scheduling is measured.
    pub fn has_metrics(&self) -> (metrics: bool)
        ensures
            metrics == self.spec_metrics(),
    {
        self.metrics
    }

    /// The task's name, if it has one.
    pub fn name(&self) -> (name: Option<&str>)
        ensures
            match name {
                Some(n) => self.spec_name() == Some(n@),
                None => self.spec_name() is None,
            },
    {
        match &self.name {
            Some(n) => Some(n.as_str()),
            None => None,
        }
    }

    /// The wrappers to put around the future, the innermost first.
    pub fn layers(&self) -> (layers: Vec<Layer>)
        ensures
            layers@ == layers_of(self.spec_critical(), self.spec_metrics()),
    {
        let mut layers: Vec<Layer> = Vec::new();
        if self.critical {
            layers.push(Layer::PanicInterception);
        }
        if self.metrics {
            layers.push(Layer::Instrumentation);
        }
        layers
    }

    /// Gives up the future, for the executor to run it.
    pub fn into_future(self) -> (fut: F)
        ensures
            fut == self.spec_future(),
    {
        self.fut
    }
}

} // verus!
