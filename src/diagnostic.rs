use vstd::prelude::*;

verus! {

/// Records the last error met while evaluating endpoint rules.
pub struct DiagnosticCollector {
    last_error: Option<&'static str>,
}

impl View for DiagnosticCollector {
    type V = Option<Seq<char>>;

    closed spec fn view(&self) -> Option<Seq<char>> {
        match self.last_error {
            Some(m) => Some(m@),
            None => None,
        }
    }
}

impl DiagnosticCollector {
    /// A collector that has recorded nothing.
    pub fn new() -> (r: Self)
        ensures
            r@ is None,
    {
        DiagnosticCollector { last_error: None }
    }

    /// Records `message` as the last error; always yields `None`, so that a
    /// caller can stop with `?`.
    pub fn capture_error<T>(&mut self, message: &'static str) -> (r: Option<T>)
        ensures
            r is None,
            final(self)@ == Some(message@),
    {
        self.last_error = Some(message);
        None
    }

    /// Hands out the last recorded error and forgets it.
    pub fn take_last_error(&mut self) -> (r: Option<&'static str>)
        ensures
            final(self)@ is None,
            match r {
                Some(m) => old(self)@ == Some(m@),
                None => old(self)@ is None,
            },
    {
        let r = self.last_error;
        self.last_error = None;
        r
    }
}

} // verus!
