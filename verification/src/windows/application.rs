//! The application and its message loop.

use vstd::prelude::*;

use crate::utf16;

verus! {

/// The state of the application.
#[derive(Debug)]
pub struct State {
    pub quitting: bool,
    /// The handles of the windows, each of them once.
    pub windows: Vec<u64>,
}

/// What to do about quitting.
#[derive(Debug)]
pub enum Quit {
    /// The state is in use: nothing can be done.
    Busy,
    /// Quitting is under way already.
    Already,
    /// Ask each of these windows to destroy itself, and then post the message that ends the loop.
    Destroy(Vec<u64>),
}

/// What waiting for a message came to.
#[derive(Clone, Copy, Debug, PartialEq, Eq, Structural)]
pub enum LoopStep {
    /// The loop ends. It was an error, or the application quits.
    Stop { error: bool },
    /// A message is there.
    Message,
}

/// How the system is told that the application knows of resolutions.
#[derive(Clone, Copy, Debug, PartialEq, Eq, Structural)]
pub enum DpiAwareness {
    /// Per monitor, as Windows 10 has it.
    Context,
    /// Per monitor, as Windows 8.1 has it.
    Process,
    /// It cannot be told.
    Unaware,
}

/// How to tell the system that the application knows of resolutions.
pub open spec fn awareness_for(has_context: bool, has_process: bool) -> DpiAwareness {
    if has_context {
        DpiAwareness::Context
    } else if has_process {
        DpiAwareness::Process
    } else {
        DpiAwareness::Unaware
    }
}

/// Chooses how to tell the system that the application knows of resolutions.
pub fn dpi_awareness(has_context: bool, has_process: bool) -> (awareness: DpiAwareness)
    ensures
        awareness == awareness_for(has_context, has_process),
{
    if has_context {
        DpiAwareness::Context
    } else if has_process {
        DpiAwareness::Process
    } else {
        DpiAwareness::Unaware
    }
}

/// Whether the window class has to be registered. That happens once in a process.
pub fn register_class_once(registered: &mut bool) -> (register: bool)
    ensures
        register == !*old(registered),
        *final(registered),
{
    let register = !*registered;
    *registered = true;
    register
}

/// What waiting for a message came to.
pub open spec fn step_for(result: i32) -> LoopStep {
    if result > 0 {
        LoopStep::Message
    } else {
        LoopStep::Stop { error: result == -1 }
    }
}

/// Decides what waiting for a message came to: a negative result is an error, and 0 is the message
/// that ends the loop.
pub fn loop_step(result: i32) -> (step: LoopStep)
    ensures
        step == step_for(result),
{
    if result <= 0 {
        LoopStep::Stop { error: result == -1 }
    } else {
        LoopStep::Message
    }
}

/// What to do with a message of the loop.
#[derive(Clone, Copy, Debug, PartialEq, Eq, Structural)]
pub struct Handling {
    /// Whether to run the callbacks that wait for the main thread, first of all.
    pub run_callbacks: bool,
    /// Whether to translate and dispatch the message: accelerators have been taken out.
    pub dispatch: bool,
}

/// What to do with a message of the loop.
pub open spec fn handling_for(message: u32, callback_message: u32, accelerator: bool) -> Handling {
    Handling { run_callbacks: message == callback_message, dispatch: !accelerator }
}

/// Decides what to do with a message. `callback_message` is the number that was registered for
/// running callbacks; `accelerator` says whether the message was an accelerator.
pub fn handle_message(message: u32, callback_message: u32, accelerator: bool) -> (handling: Handling)
    ensures
        handling == handling_for(message, callback_message, accelerator),
{
    Handling { run_callbacks: message == callback_message, dispatch: !accelerator }
}

impl State {
    pub fn new() -> (state: State)
        ensures
            !state.quitting,
            state.windows@.len() == 0,
            state.windows@.no_duplicates(),
    {
        State { quitting: false, windows: Vec::new() }
    }

    fn find(&self, window: u64) -> (found: Option<usize>)
        ensures
            match found {
                Some(i) => i < self.windows@.len() && self.windows@[i as int] == window,
                None => !self.windows@.contains(window),
            },
    {
        let mut i: usize = 0;
        while i < self.windows.len()
            invariant
                i <= self.windows@.len(),
                forall|j: int| 0 <= j < i ==> self.windows@[j] != window,
            decreases self.windows.len() - i,
        {
            if self.windows[i] == window {
                return Some(i);
            }
            i += 1;
        }
        None
    }

    /// Adds a window. Returns whether it is new.
    pub fn add_window(&mut self, window: u64) -> (added: bool)
        requires
            old(self).windows@.no_duplicates(),
        ensures
            added == !old(self).windows@.contains(window),
            final(self).windows@ == if added {
                old(self).windows@.push(window)
            } else {
                old(self).windows@
            },
            final(self).windows@.no_duplicates(),
            final(self).quitting == old(self).quitting,
    {
        match self.find(window) {
            Some(i) => {
                assert(self.windows@[i as int] == window);
                false
            },
            None => {
                self.windows.push(window);
                true
            },
        }
    }

    /// Removes a window. Returns whether it was there.
    pub fn remove_window(&mut self, window: u64) -> (removed: bool)
        requires
            old(self).windows@.no_duplicates(),
        ensures
            removed == old(self).windows@.contains(window),
            !final(self).windows@.contains(window),
            final(self).windows@.no_duplicates(),
            forall|other: u64|
                other != window ==> (#[trigger] final(self).windows@.contains(other) == old(self).windows@.contains(other)),
            final(self).quitting == old(self).quitting,
    {
        let ghost before = self.windows@;
        match self.find(window) {
            Some(i) => {
                let _ = self.windows.remove(i);
                proof {
                    let after = self.windows@;
                    assert(after =~= before.remove(i as int));
                    assert(before.contains(window)) by {
                        assert(before[i as int] == window);
                    }
                    assert forall|other: u64| other != window implies #[trigger] after.contains(
                        other,
                    ) == before.contains(other) by {
                        if after.contains(other) {
                            let k = choose|k: int| 0 <= k < after.len() && after[k] == other;
                            assert(before[if k < i {
                                k
                            } else {
                                k + 1
                            }] == other);
                        }
                        if before.contains(other) {
                            let k = choose|k: int| 0 <= k < before.len() && before[k] == other;
                            assert(after[if k < i {
                                k
                            } else {
                                k - 1
                            }] == other);
                        }
                    }
                }
                true
            },
            None => false,
        }
    }

    /// Quits the application, once. We want to queue up the destruction of all our windows.
    /// Failure to do so will lead to resource leaks
    /// and an eventual error code exit for the process.
    pub fn quit(&mut self, busy: bool) -> (quit: Quit)
        ensures
            final(self).windows@ == old(self).windows@,
            quits(old(self).windows@, old(self).quitting, busy, final(self).quitting, quit),
    {
        if busy {
            return Quit::Busy;
        }
        if self.quitting {
            return Quit::Already;
        }
        self.quitting = true;
        let mut windows: Vec<u64> = Vec::new();
        let mut i: usize = 0;
        while i < self.windows.len()
            invariant
                i <= self.windows@.len(),
                windows@ == self.windows@.take(i as int),
            decreases self.windows.len() - i,
        {
            windows.push(self.windows[i]);
            i += 1;
            assert(windows@ =~= self.windows@.take(i as int));
        }
        assert(self.windows@.take(i as int) =~= self.windows@);
        Quit::Destroy(windows)
    }
}

/// The name of the user's locale in a buffer.
pub open spec fn locale_in(buffer: Seq<u16>, len_with_null: int) -> Seq<char> {
    if 0 < len_with_null <= buffer.len() + 1 && utf16::decoded(
        buffer.take(len_with_null - 1),
    ) is Some {
        utf16::decoded(buffer.take(len_with_null - 1))->0
    } else {
        "en-US"@
    }
}

/// The name of the user's locale, from what the system wrote into a buffer. `len_with_null` counts
/// the zero at the end; it is 0 if the system could not tell.
pub fn get_locale(buffer: &[u16], len_with_null: usize) -> (locale: String)
    ensures
        locale@ == locale_in(buffer@, len_with_null as int),
{
    if len_with_null > 0 && len_with_null - 1 <= buffer.len() {
        let name = vstd::slice::slice_subrange(buffer, 0, len_with_null - 1);
        assert(name@ =~= buffer@.take(len_with_null - 1));
        if let Some(locale) = utf16::decode(name) {
            return locale;
        }
    }
    "en-US".to_owned()
}

/// The name that the system wrote is the name of the locale, without the zero at its end and
/// whatever the buffer holds behind it. Where it could not tell, there still is a name.
pub proof fn law_locale_is_what_was_written(name: Seq<char>, rest: Seq<u16>)
    ensures
        locale_in(
            utf16::encoded(name) + seq![0u16] + rest,
            utf16::unit_len(name) as int + 1,
        ) == name,
        locale_in(utf16::encoded(name) + seq![0u16] + rest, 0) == "en-US"@,
{
    utf16::law_decode_undoes_encode(name);
    let buffer = utf16::encoded(name) + seq![0u16] + rest;
    assert(buffer.take(utf16::unit_len(name) as int) =~= utf16::encoded(name));
}

/// The newest way of telling that there is counts, and there is nothing to tell only without any.
pub proof fn law_newest_awareness_counts(has_context: bool, has_process: bool)
    ensures
        awareness_for(has_context, has_process) == DpiAwareness::Context <==> has_context,
        awareness_for(has_context, has_process) == DpiAwareness::Unaware <==> !has_context
            && !has_process,
{
}

/// The loop goes on exactly while there are messages, and ends in an error only for the number that
/// stands for one.
pub proof fn law_loop_ends_without_a_message(result: i32)
    ensures
        step_for(result) is Stop <==> result <= 0,
        step_for(result) == (LoopStep::Stop { error: true }) <==> result == -1,
{
}

/// Callbacks are run for their own message only, whether or not it is an accelerator, and every
/// message but an accelerator is dispatched.
pub proof fn law_messages_are_dispatched(message: u32, callback_message: u32, accelerator: bool)
    ensures
        handling_for(message, callback_message, accelerator).run_callbacks <==> message
            == callback_message,
        handling_for(message, callback_message, accelerator).dispatch != accelerator,
{
}

/// What comes of quitting an application with some windows.
pub open spec fn quits(
    windows: Seq<u64>,
    quitting: bool,
    busy: bool,
    now_quitting: bool,
    quit: Quit,
) -> bool {
    &&& now_quitting == (quitting || !busy)
    &&& match quit {
        Quit::Busy => busy,
        Quit::Already => !busy && quitting,
        Quit::Destroy(destroyed) => !busy && !quitting && destroyed@ == windows,
    }
}

/// An application that quits destroys all of its windows, and does so once. One that is busy does
/// not begin to quit.
pub proof fn law_applications_quit_once(
    windows: Seq<u64>,
    quitting: bool,
    busy: bool,
    now_quitting: bool,
    quit: Quit,
    then_busy: bool,
    then_quitting: bool,
    again: Quit,
)
    requires
        quits(windows, quitting, busy, now_quitting, quit),
        quits(windows, now_quitting, then_busy, then_quitting, again),
    ensures
        quit is Busy == busy,
        quit matches Quit::Destroy(destroyed) ==> destroyed@ == windows && now_quitting
            && !(again is Destroy),
        !quitting && !busy ==> quit is Destroy,
        busy ==> now_quitting == quitting,
        now_quitting ==> then_quitting,
{
}

} // verus!
