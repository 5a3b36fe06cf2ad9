use vstd::prelude::*;

verus! {

/// The visit counter shared by all requests.
pub struct Counter {
    pub count: u32,
}

impl View for Counter {
    type V = nat;

    open spec fn view(&self) -> nat {
        self.count as nat
    }
}

impl Counter {
    /// The counter as the server starts with it.
    pub open spec fn fresh() -> Counter {
        Counter { count: 0 }
    }

    /// The counter one step later.
    pub open spec fn incremented(self) -> Counter {
        Counter { count: (self.count + 1) as u32 }
    }

    /// The counter after `n` steps.
    pub open spec fn after_increments(self, n: nat) -> Counter
        decreases n,
    {
        if n == 0 {
            self
        } else {
            self.after_increments((n - 1) as nat).incremented()
        }
    }

    /// A counter at zero.
    pub fn new() -> (c: Counter)
        ensures
            c == Counter::fresh(),
    {
        Counter { count: 0 }
    }

    /// The current value.
    pub fn value(&self) -> (r: u32)
        ensures
            r == self.count,
    {
        self.count
    }

    /// Adds exactly one to the counter.
    pub fn increment(&mut self)
        requires
            old(self).count < u32::MAX,
        ensures
            *final(self) == old(self).incremented(),
            final(self)@ == old(self)@ + 1,
    {
        self.count = self.count + 1;
    }
}

/// The text shown in the home page's file section.
pub struct FileContent {
    pub content: String,
}

impl View for FileContent {
    type V = Seq<char>;

    open spec fn view(&self) -> Seq<char> {
        self.content@
    }
}

impl FileContent {
    /// An empty file section, as the server starts with it.
    pub fn new() -> (f: FileContent)
        ensures
            f@ == Seq::<char>::empty(),
    {
        FileContent { content: String::new() }
    }

    /// The stored text.
    pub fn as_str(&self) -> (r: &str)
        ensures
            r@ == self@,
    {
        self.content.as_str()
    }
}

} // verus!
