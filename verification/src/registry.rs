use vstd::prelude::*;
use crate::handler::Handler;
use crate::marshal::{reinterpret_u32, truncate_coordinate, wrap_u16, wrap_u32};
use crate::types::{DrawError, Point};

verus! {

/// The write-once cell of `mut_static`, known to the verifier by name only.
#[verifier::external_type_specification]
#[verifier::external_body]
#[verifier::reject_recursive_types(T)]
pub struct ExMutStatic<T>(mut_static::MutStatic<T>);

/// The read guard that `mut_static` hands out, known by name only.
#[verifier::external_type_specification]
#[verifier::external_body]
#[verifier::reject_recursive_types(T)]
pub struct ExReadGuard<'a, T: 'a>(mut_static::ForceSomeRwLockReadGuard<'a, T>);

/// The error type of `mut_static`, known by name only.
#[verifier::external_type_specification]
#[verifier::external_body]
pub struct ExSlotError(mut_static::Error);

/// What a cell holds: nothing, or the handler it was set with.
pub uninterp spec fn slot_handler(slot: &mut_static::MutStatic<Handler>) -> Option<Handler>;

/// Whether the lock inside a cell is poisoned, which happens only when a
/// thread panics while it holds the cell's write guard.
pub uninterp spec fn slot_poisoned(slot: &mut_static::MutStatic<Handler>) -> bool;

/// Whether a read guard stands over a value, as every guard that came from
/// a cell's `read` does.
pub uninterp spec fn guard_live(guard: &mut_static::ForceSomeRwLockReadGuard<Handler>) -> bool;

/// `MutStatic::new`: a fresh cell holds nothing and its lock is sound.
#[verifier::external_body]
fn slot_new() -> (slot: mut_static::MutStatic<Handler>)
    ensures
        slot_handler(&slot) is None,
        !slot_poisoned(&slot),
{
    mut_static::MutStatic::new()
}

/// `MutStatic::is_set`: on a sound lock it answers whether the cell holds a
/// value; on a poisoned lock it fails.
#[verifier::external_body]
fn slot_is_set(slot: &mut_static::MutStatic<Handler>) -> (answer: Result<
    bool,
    mut_static::Error,
>)
    ensures
        slot_poisoned(slot) <==> answer is Err,
        answer is Ok ==> answer->Ok_0 == (slot_handler(slot) is Some),
{
    slot.is_set()
}

/// `MutStatic::set` on an empty cell: on a sound lock the call succeeds and
/// the cell then holds `value`; on a poisoned lock it fails and the cell
/// stays empty. The call leaves the lock as it found it and does not
/// unwind. A cell that holds a value is left out: there `set` replaces the
/// value and reports an error.
#[verifier::external_body]
fn slot_set(slot: &mut mut_static::MutStatic<Handler>, value: Handler) -> (outcome: Result<
    (),
    mut_static::Error,
>)
    requires
        slot_handler(old(slot)) is None,
    ensures
        slot_poisoned(old(slot)) <==> outcome is Err,
        outcome is Ok ==> slot_handler(final(slot)) == Some(value),
        outcome is Err ==> slot_handler(final(slot)) is None,
        slot_poisoned(final(slot)) == slot_poisoned(old(slot)),
    no_unwind
{
    slot.set(value)
}

/// `MutStatic::read`: on a sound lock it succeeds exactly when the cell
/// holds a value, and the guard then stands over that value; on a poisoned
/// lock it fails.
#[verifier::external_body]
fn slot_read<'a>(slot: &'a mut_static::MutStatic<Handler>) -> (guard: Result<
    mut_static::ForceSomeRwLockReadGuard<'a, Handler>,
    mut_static::Error,
>)
    ensures
        guard is Ok <==> (slot_handler(slot) is Some && !slot_poisoned(slot)),
        guard is Ok ==> guard_live(&guard->Ok_0),
{
    slot.read()
}

/// `ForceSomeRwLockReadGuard::as_ref`: the value behind a guard. It panics
/// on a guard over an empty cell, which is left out.
#[verifier::external_body]
fn guard_handler<'g, 'a>(
    guard: &'g mut_static::ForceSomeRwLockReadGuard<'a, Handler>,
) -> (handler: &'g Handler)
    requires
        guard_live(guard),
{
    guard.as_ref()
}

/// An input event as the handler sees it.
#[derive(Clone, Copy, Debug, PartialEq, Eq, Structural)]
pub enum Event {
    /// A key went down or up.
    Key { keycode: u32, went_down: bool },
    /// A pointer button went down or up.
    Button { position: Point, button: u32, went_down: bool },
    /// The pointer moved.
    Motion { position: Point, mask: u32 },
    /// The window is going away.
    Destroy,
}

/// The key event that the native core reports with these two numbers.
pub open spec fn key_event_of(keycode: int, down: int) -> Event {
    Event::Key { keycode: wrap_u32(keycode) as u32, went_down: down != 0 }
}

/// The button event that the native core reports with these four numbers.
pub open spec fn button_event_of(x: int, y: int, button: int, down: int) -> Event {
    Event::Button {
        position: Point { x: wrap_u16(x) as u16, y: wrap_u16(y) as u16 },
        button: wrap_u32(button) as u32,
        went_down: down != 0,
    }
}

/// The motion event that the native core reports with these three numbers.
pub open spec fn motion_event_of(x: int, y: int, mask: int) -> Event {
    Event::Motion {
        position: Point { x: wrap_u16(x) as u16, y: wrap_u16(y) as u16 },
        mask: wrap_u32(mask) as u32,
    }
}

/// Decodes a native key report: the key code keeps its 32 bits, and any
/// non-zero flag means that the key went down.
pub fn key_event(keycode: i32, down: i32) -> (event: Event)
    ensures
        event == key_event_of(keycode as int, down as int),
{
    Event::Key { keycode: reinterpret_u32(keycode), went_down: down != 0 }
}

/// Decodes a native button report: each coordinate keeps its low 16 bits.
pub fn button_event(x: i32, y: i32, button: i32, down: i32) -> (event: Event)
    ensures
        event == button_event_of(x as int, y as int, button as int, down as int),
{
    Event::Button {
        position: Point { x: truncate_coordinate(x), y: truncate_coordinate(y) },
        button: reinterpret_u32(button),
        went_down: down != 0,
    }
}

/// Decodes a native motion report: each coordinate keeps its low 16 bits.
pub fn motion_event(x: i32, y: i32, mask: i32) -> (event: Event)
    ensures
        event == motion_event_of(x as int, y as int, mask as int),
{
    Event::Motion {
        position: Point { x: truncate_coordinate(x), y: truncate_coordinate(y) },
        mask: reinterpret_u32(mask),
    }
}

/// Hands one event to a handler: the method that matches the event's kind
/// is called once, with the event's fields as its arguments.
pub fn deliver(handler: &Handler, event: Event) {
    match event {
        Event::Key { keycode, went_down } => handler.app.handle_key(keycode, went_down),
        Event::Button { position, button, went_down } => handler.app.handle_button(
            position,
            button,
            went_down,
        ),
        Event::Motion { position, mask } => handler.app.handle_motion(position, mask),
        Event::Destroy => handler.app.handle_destroy(),
    }
}

/// The place of the one application handler. It starts empty, is filled
/// once, and is never emptied or refilled.
///
/// Installing takes the registry exclusively, so it cannot run beside a
/// delivery; deliveries share the registry and may run side by side, each
/// under a read lock of the cell. A handler must not deliver to the registry
/// that is calling it: the read lock is not reentrant.
pub struct Registry {
    slot: mut_static::MutStatic<Handler>,
}

impl Registry {
    /// The cell's lock is never poisoned: nothing here takes its write guard
    /// but `set`, on an empty cell.
    #[verifier::type_invariant]
    spec fn sound(&self) -> bool {
        !slot_poisoned(&self.slot)
    }

    /// The installed handler, if there is one.
    pub closed spec fn handler(&self) -> Option<Handler> {
        slot_handler(&self.slot)
    }

    /// Whether a handler is installed.
    pub open spec fn is_active(&self) -> bool {
        self.handler() is Some
    }

    /// What one installation does: an empty registry takes the handler
    /// given and the call succeeds; a registry that has a handler stays
    /// exactly as it is and the call fails.
    pub open spec fn installs(
        pre: Registry,
        given: Handler,
        post: Registry,
        outcome: Result<(), DrawError>,
    ) -> bool {
        if pre.is_active() {
            outcome == Err::<(), DrawError>(DrawError::AlreadyInitialized) && post == pre
        } else {
            outcome == Ok::<(), DrawError>(()) && post.handler() == Some(given)
        }
    }

    /// What one delivery returns: success where a handler is installed, an
    /// error where none is.
    pub open spec fn delivers(&self) -> Result<(), DrawError> {
        if self.is_active() {
            Ok(())
        } else {
            Err(DrawError::NoHandlerInstalled)
        }
    }

    /// A registry without a handler.
    pub fn new() -> (registry: Registry)
        ensures
            !registry.is_active(),
    {
        Registry { slot: slot_new() }
    }

    /// Tells whether a handler is installed.
    pub fn has_handler(&self) -> (active: bool)
        ensures
            active == self.is_active(),
    {
        proof {
            use_type_invariant(self);
        }
        match slot_is_set(&self.slot) {
            Ok(set) => set,
            // Only a poisoned lock fails, and this lock is never poisoned.
            Err(_) => false,
        }
    }

    /// Installs the handler. This succeeds on an empty registry and only
    /// there: a registry that has a handler keeps it and refuses the new one.
    pub fn install(&mut self, handler: Handler) -> (outcome: Result<(), DrawError>)
        ensures
            Registry::installs(*old(self), handler, *final(self), outcome),
    {
        proof {
            use_type_invariant(&*self);
        }
        if self.has_handler() {
            return Err(DrawError::AlreadyInitialized);
        }
        match slot_set(&mut self.slot, handler) {
            Ok(()) => Ok(()),
            // Only a poisoned lock fails, and this lock is never poisoned.
            Err(_) => Err(DrawError::AlreadyInitialized),
        }
    }

    /// Delivers an event to the installed handler, and fails where there is
    /// none. The registry is only read.
    pub fn dispatch(&self, event: Event) -> (outcome: Result<(), DrawError>)
        ensures
            outcome == self.delivers(),
    {
        proof {
            use_type_invariant(self);
        }
        match slot_read(&self.slot) {
            Ok(guard) => {
                deliver(guard_handler(&guard), event);
                Ok(())
            },
            Err(_) => Err(DrawError::NoHandlerInstalled),
        }
    }

    /// Delivers a key event.
    pub fn dispatch_key(&self, keycode: u32, pressed: bool) -> (outcome: Result<(), DrawError>)
        ensures
            outcome == self.delivers(),
    {
        self.dispatch(Event::Key { keycode, went_down: pressed })
    }

    /// Delivers a button event.
    pub fn dispatch_button(&self, position: Point, button: u32, pressed: bool) -> (outcome: Result<
        (),
        DrawError,
    >)
        ensures
            outcome == self.delivers(),
    {
        self.dispatch(Event::Button { position, button, went_down: pressed })
    }

    /// Delivers a motion event.
    pub fn dispatch_motion(&self, position: Point, mask: u32) -> (outcome: Result<(), DrawError>)
        ensures
            outcome == self.delivers(),
    {
        self.dispatch(Event::Motion { position, mask })
    }

    /// Delivers the destroy event.
    pub fn dispatch_destroy(&self) -> (outcome: Result<(), DrawError>)
        ensures
            outcome == self.delivers(),
    {
        self.dispatch(Event::Destroy)
    }
}

/// The native core's key callback: decodes the report and delivers it.
#[allow(non_snake_case)]
pub fn HandleKey(registry: &Registry, keycode: i32, bDown: i32) -> (outcome: Result<(), DrawError>)
    ensures
        outcome == registry.delivers(),
{
    registry.dispatch(key_event(keycode, bDown))
}

/// The native core's button callback: decodes the report and delivers it.
#[allow(non_snake_case)]
pub fn HandleButton(registry: &Registry, x: i32, y: i32, button: i32, bDown: i32) -> (outcome:
    Result<(), DrawError>)
    ensures
        outcome == registry.delivers(),
{
    registry.dispatch(button_event(x, y, button, bDown))
}

/// The native core's motion callback: decodes the report and delivers it.
#[allow(non_snake_case)]
pub fn HandleMotion(registry: &Registry, x: i32, y: i32, mask: i32) -> (outcome: Result<
    (),
    DrawError,
>)
    ensures
        outcome == registry.delivers(),
{
    registry.dispatch(motion_event(x, y, mask))
}

/// The native core's destroy callback: delivers the destroy event.
#[allow(non_snake_case)]
pub fn HandleDestroy(registry: &Registry) -> (outcome: Result<(), DrawError>)
    ensures
        outcome == registry.delivers(),
{
    registry.dispatch(Event::Destroy)
}

/// Of two installations in a row on an empty registry, the first succeeds
/// and the second fails with `AlreadyInitialized` and changes nothing: the
/// registry still holds the handler of the first, and events reach it.
pub proof fn lemma_install_twice(
    empty: Registry,
    first_handler: Handler,
    once: Registry,
    second_handler: Handler,
    twice: Registry,
    first: Result<(), DrawError>,
    second: Result<(), DrawError>,
)
    requires
        !empty.is_active(),
        Registry::installs(empty, first_handler, once, first),
        Registry::installs(once, second_handler, twice, second),
    ensures
        first == Ok::<(), DrawError>(()),
        second == Err::<(), DrawError>(DrawError::AlreadyInitialized),
        twice == once,
        twice.handler() == Some(first_handler),
        twice.delivers() == Ok::<(), DrawError>(()),
{
}

/// A registry never goes back: after an installation, whatever its outcome,
/// a handler is installed, and it is the one given exactly where the
/// registry was empty before.
pub proof fn lemma_install_activates(
    pre: Registry,
    given: Handler,
    post: Registry,
    outcome: Result<(), DrawError>,
)
    requires
        Registry::installs(pre, given, post, outcome),
    ensures
        post.is_active(),
        outcome is Ok <==> !pre.is_active(),
        outcome is Ok ==> post.handler() == Some(given),
        outcome is Err ==> post.handler() == pre.handler(),
{
}

/// An event that arrives while no handler is installed is answered with
/// `NoHandlerInstalled`.
pub proof fn lemma_no_handler_no_delivery(registry: Registry)
    requires
        !registry.is_active(),
    ensures
        registry.delivers() == Err::<(), DrawError>(DrawError::NoHandlerInstalled),
{
}

} // verus!
