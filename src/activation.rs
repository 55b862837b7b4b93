use vstd::prelude::*;

verus! {

/// Access to the startup activation token that the desktop session hands to the
/// process through its environment.
///
/// The token is meant for one window: taking it clears it, so that windows
/// created later by the same process do not reuse it.
pub struct ActivationEnv<T> {
    token: Option<T>,
}

impl<T> View for ActivationEnv<T> {
    type V = Option<T>;

    closed spec fn view(&self) -> Option<T> {
        self.token
    }
}

/// The environment after a token is taken, and the token that was taken.
pub open spec fn take_step<T>(env: Option<T>) -> (Option<T>, Option<T>) {
    (None, env)
}

impl<T> ActivationEnv<T> {
    /// An environment that holds `token`, if any.
    pub fn new(token: Option<T>) -> (r: ActivationEnv<T>)
        ensures
            r@ == token,
    {
        ActivationEnv { token }
    }

    /// Take the token out of the environment, leaving none behind.
    pub fn take_token(&mut self) -> (r: Option<T>)
        ensures
            (final(self)@, r) == take_step(old(self)@),
    {
        self.token.take()
    }

    /// Whether a token is still waiting to be taken.
    pub fn has_token(&self) -> (r: bool)
        ensures
            r == self@ is Some,
    {
        self.token.is_some()
    }
}

} // verus!
