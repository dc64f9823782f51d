//! Toast notifications.

use vstd::prelude::*;

verus! {

/// How a toast is colored.
#[derive(Clone, Copy, PartialEq, Eq, Structural, Debug)]
pub enum ToastLevel {
    Info,
    Warning,
    Error,
}

/// A toast notification.
#[derive(Debug)]
pub struct Toast {
    pub message: String,
    pub level: ToastLevel,
}

impl Clone for Toast {
    fn clone(&self) -> (c: Self)
        ensures
            c == *self,
    {
        Toast { message: self.message.clone(), level: self.level }
    }
}

impl Toast {
    /// An error toast.
    pub fn error(message: String) -> (t: Toast)
        ensures
            t.message@ == message@,
            t.level == ToastLevel::Error,
    {
        Toast { message, level: ToastLevel::Error }
    }

    /// A warning toast.
    pub fn warning(message: String) -> (t: Toast)
        ensures
            t.message@ == message@,
            t.level == ToastLevel::Warning,
    {
        Toast { message, level: ToastLevel::Warning }
    }

    /// An informational toast.
    pub fn info(message: String) -> (t: Toast)
        ensures
            t.message@ == message@,
            t.level == ToastLevel::Info,
    {
        Toast { message, level: ToastLevel::Info }
    }
}

} // verus!
