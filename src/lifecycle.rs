use vstd::prelude::*;

verus! {

/// The lifecycle of the hosted application: waiting for its context with the
/// initial payload, running, or shut down.
pub enum Lifecycle<A, I> {
    Uninitialized(I),
    Running(A),
    ShuttingDown,
}

/// A step that the current lifecycle state does not allow.
#[derive(Clone, Copy, Debug, PartialEq, Eq, Structural)]
pub enum LifecycleError {
    /// A second init-complete event while the application runs.
    AlreadyRunning,
    /// An event that needs the running application, before it runs.
    NotRunning,
    /// An event after shutdown.
    ShutDown,
}

/// A window event, as far as the controller routes it.
#[derive(Clone, Copy, Debug, PartialEq, Eq, Structural)]
pub enum WindowSignal {
    Resized(u32, u32),
    RedrawRequested,
    /// Any other window event, and every device event.
    Input,
}

/// Where the controller sends a window event.
#[derive(Clone, Copy, Debug, PartialEq, Eq, Structural)]
pub enum Route {
    /// Drop it: there is no running application to receive it.
    Ignore,
    /// Configure the presentation surface with this size.
    Configure(u32, u32),
    /// Run one frame: the frame callback, then clearing the input queue and
    /// requesting the next redraw.
    Frame,
    /// Hand it to the input translator.
    Translate,
}

/// The outcome of an init-complete event in a given state.
pub open spec fn init_outcome<A, I>(state: Lifecycle<A, I>) -> Result<(), LifecycleError> {
    match state {
        Lifecycle::Uninitialized(_) => Ok(()),
        Lifecycle::Running(_) => Err(LifecycleError::AlreadyRunning),
        Lifecycle::ShuttingDown => Err(LifecycleError::ShutDown),
    }
}

/// A window dimension clamped to at least one pixel.
pub open spec fn clamp_dim(x: u32) -> u32 {
    if x == 0 {
        1
    } else {
        x
    }
}

/// Where a window event goes in a given state.
pub open spec fn route_of<A, I>(state: Lifecycle<A, I>, signal: WindowSignal) -> Route {
    if state is Running {
        match signal {
            WindowSignal::Resized(w, h) => Route::Configure(clamp_dim(w), clamp_dim(h)),
            WindowSignal::RedrawRequested => Route::Frame,
            WindowSignal::Input => Route::Translate,
        }
    } else {
        Route::Ignore
    }
}

/// Clamps a window dimension to at least one pixel.
pub fn at_least_one(x: u32) -> (r: u32)
    ensures
        r == clamp_dim(x),
{
    if x == 0 {
        1
    } else {
        x
    }
}

/// The lifecycle controller: the application's lifecycle state and whether
/// the window and GPU bootstrap were launched.
pub struct Controller<A, I> {
    state: Lifecycle<A, I>,
    launched: bool,
}

impl<A, I> Controller<A, I> {
    /// The lifecycle state.
    pub closed spec fn state(&self) -> Lifecycle<A, I> {
        self.state
    }

    /// Whether the bootstrap was launched.
    pub closed spec fn launched(&self) -> bool {
        self.launched
    }

    /// A controller that holds the initial payload and has launched nothing.
    pub fn new(init: I) -> (r: Self)
        ensures
            r.state() == Lifecycle::<A, I>::Uninitialized(init),
            !r.launched(),
    {
        Controller { state: Lifecycle::Uninitialized(init), launched: false }
    }

    /// Handles the start of the event loop. Returns whether the window must be
    /// created and the asynchronous GPU bootstrap launched: on the loop's first
    /// start, once.
    pub fn start(&mut self, first: bool) -> (r: bool)
        ensures
            r == (first && !old(self).launched() && old(self).state() is Uninitialized),
            final(self).state() == old(self).state(),
            final(self).launched() == (old(self).launched() || r),
    {
        let go = first && !self.launched && matches!(self.state, Lifecycle::Uninitialized(_));
        if go {
            self.launched = true;
        }
        go
    }

    /// Whether the application runs.
    pub fn is_running(&self) -> (r: bool)
        ensures
            r == (self.state() is Running),
    {
        matches!(self.state, Lifecycle::Running(_))
    }

    /// Handles the init-complete event: moves the initial payload out, builds
    /// the application from it with `make_app`, and runs it. A second delivery,
    /// or one after shutdown, is rejected and changes nothing; `make_app` is
    /// then not called.
    pub fn init_complete<F: FnOnce(I) -> A>(&mut self, make_app: F) -> (r: Result<(), LifecycleError>)
        requires
            forall|i: I| make_app.requires((i,)),
        ensures
            r == init_outcome(old(self).state()),
            final(self).launched() == old(self).launched(),
            match old(self).state() {
                Lifecycle::Uninitialized(i) => final(self).state() matches Lifecycle::Running(a)
                    && make_app.ensures((i,), a),
                _ => final(self).state() == old(self).state(),
            },
    {
        let mut state = Lifecycle::ShuttingDown;
        std::mem::swap(&mut self.state, &mut state);
        match state {
            Lifecycle::Uninitialized(init) => {
                let app = make_app(init);
                self.state = Lifecycle::Running(app);
                Ok(())
            },
            Lifecycle::Running(app) => {
                self.state = Lifecycle::Running(app);
                Err(LifecycleError::AlreadyRunning)
            },
            Lifecycle::ShuttingDown => Err(LifecycleError::ShutDown),
        }
    }

    /// The running application, for its frame callback.
    pub fn app_mut(&mut self) -> (r: &mut A)
        requires
            old(self).state() is Running,
        ensures
            old(self).state() == Lifecycle::<A, I>::Running(*r),
            final(self).state() == Lifecycle::<A, I>::Running(*final(r)),
            final(self).launched() == old(self).launched(),
    {
        match &mut self.state {
            Lifecycle::Running(app) => app,
            _ => unreached(),
        }
    }

    /// Routes a window event: nothing reaches the application before it runs;
    /// a resize configures the surface with each dimension at least one.
    pub fn route(&self, signal: WindowSignal) -> (r: Route)
        ensures
            r == route_of(self.state(), signal),
    {
        if !self.is_running() {
            return Route::Ignore;
        }
        match signal {
            WindowSignal::Resized(w, h) => Route::Configure(at_least_one(w), at_least_one(h)),
            WindowSignal::RedrawRequested => Route::Frame,
            WindowSignal::Input => Route::Translate,
        }
    }

    /// Handles shutdown: the running application is moved out, for its deinit
    /// callback, and the controller is shut down for good.
    pub fn shutdown(&mut self) -> (r: Result<A, LifecycleError>)
        ensures
            final(self).state() is ShuttingDown,
            final(self).launched() == old(self).launched(),
            match old(self).state() {
                Lifecycle::Running(a) => r == Ok::<A, LifecycleError>(a),
                Lifecycle::Uninitialized(_) => r == Err::<A, LifecycleError>(LifecycleError::NotRunning),
                Lifecycle::ShuttingDown => r == Err::<A, LifecycleError>(LifecycleError::ShutDown),
            },
    {
        let mut state = Lifecycle::ShuttingDown;
        std::mem::swap(&mut self.state, &mut state);
        match state {
            Lifecycle::Running(app) => Ok(app),
            Lifecycle::Uninitialized(_) => Err(LifecycleError::NotRunning),
            Lifecycle::ShuttingDown => Err(LifecycleError::ShutDown),
        }
    }
}

/// Once the application runs, a further init-complete event before shutdown
/// is rejected and leaves the running application in place; only the
/// uninitialized state accepts one.
pub proof fn lemma_second_init_rejected<A, I>(state: Lifecycle<A, I>)
    ensures
        state is Running ==> init_outcome(state) == Err::<(), LifecycleError>(LifecycleError::AlreadyRunning),
        init_outcome(state) is Ok <==> state is Uninitialized,
{
}

/// No window event reaches the application before the init-complete event
/// has made it run.
pub proof fn lemma_nothing_before_init<A, I>(init: I, signal: WindowSignal)
    ensures
        route_of(Lifecycle::<A, I>::Uninitialized(init), signal) == Route::Ignore,
        route_of(Lifecycle::<A, I>::ShuttingDown, signal) == Route::Ignore,
{
}

} // verus!
