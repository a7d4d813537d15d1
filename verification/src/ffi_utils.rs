//! Results of vendor API calls (NVML, ADL), the order in which a dynamic
//! library is looked for, and tables of API functions.
//!
//! Loading a library is the caller's part: `LibraryLoader::load_step` says
//! which path to try next and when to give up.
use vstd::prelude::*;
use std::marker::PhantomData;
use crate::text::{push_all, push_str_chars, string_from_chars, string_views};

verus! {

/// The outcome of a vendor API call: a status code and the value the call
/// wrote.
pub trait ApiResult<T>: Sized {
    /// The call succeeded.
    spec fn succeeded(&self) -> bool;

    /// The value the call wrote.
    spec fn produced(&self) -> T;

    /// The status code of the call.
    spec fn status(&self) -> i32;

    /// Whether the call succeeded.
    fn is_success(&self) -> (r: bool)
        ensures
            r == self.succeeded(),
    ;

    /// The value when the call succeeded, `None` otherwise.
    fn to_option(self) -> (r: Option<T>)
        ensures
            r == (if self.succeeded() {
                Some(self.produced())
            } else {
                None
            }),
    ;

    /// The status code, for reports.
    fn error_code(&self) -> (r: i32)
        ensures
            r == self.status(),
    ;
}

/// The outcome of an NVML call (`NVML_SUCCESS` is 0).
pub struct NvmlResult<T> {
    /// The `nvmlReturn_t` status.
    pub code: i32,
    /// The value the call wrote.
    pub value: T,
}

impl<T> ApiResult<T> for NvmlResult<T> {
    open spec fn succeeded(&self) -> bool {
        self.code == 0
    }

    open spec fn produced(&self) -> T {
        self.value
    }

    open spec fn status(&self) -> i32 {
        self.code
    }

    fn is_success(&self) -> (r: bool) {
        self.code == 0
    }

    fn to_option(self) -> (r: Option<T>) {
        if self.is_success() {
            Some(self.value)
        } else {
            None
        }
    }

    fn error_code(&self) -> (r: i32) {
        self.code
    }
}

/// The outcome of an ADL call (`ADL_OK` is 0).
pub struct AdlResult<T> {
    /// The ADL status.
    pub code: i32,
    /// The value the call wrote.
    pub value: T,
}

impl<T> ApiResult<T> for AdlResult<T> {
    open spec fn succeeded(&self) -> bool {
        self.code == 0
    }

    open spec fn produced(&self) -> T {
        self.value
    }

    open spec fn status(&self) -> i32 {
        self.code
    }

    fn is_success(&self) -> (r: bool) {
        self.code == 0
    }

    fn to_option(self) -> (r: Option<T>) {
        if self.is_success() {
            Some(self.value)
        } else {
            None
        }
    }

    fn error_code(&self) -> (r: i32) {
        self.code
    }
}

/// What to do next while loading a library.
pub enum LoadStep {
    /// Try to load the library from this name or path.
    Try(String),
    /// Every candidate failed; report this message.
    GiveUp(String),
}

/// Where a dynamic library is looked for: its name first, then each
/// fallback path in the order they were added.
pub struct LibraryLoader {
    library_name: String,
    fallback_paths: Vec<String>,
}

/// The message given when no candidate could be loaded.
pub open spec fn load_failure_message(name: Seq<char>) -> Seq<char> {
    "Failed to load library "@ + name + " and all fallback paths"@
}

impl LibraryLoader {
    /// The library name, tried first.
    pub closed spec fn name(self) -> Seq<char> {
        self.library_name@
    }

    /// The fallback paths, in the order they are tried.
    pub closed spec fn fallbacks(self) -> Seq<Seq<char>> {
        string_views(self.fallback_paths@)
    }

    /// Every name or path tried, in order.
    pub open spec fn candidates(self) -> Seq<Seq<char>> {
        seq![self.name()] + self.fallbacks()
    }

    /// A loader for `library_name`, with no fallback path yet.
    pub fn new(library_name: &str) -> (r: Self)
        ensures
            r.name() == library_name@,
            r.fallbacks() == Seq::<Seq<char>>::empty(),
    {
        let r = LibraryLoader { library_name: String::from_str(library_name), fallback_paths: Vec::new() };
        assert(r.fallbacks() =~= Seq::<Seq<char>>::empty());
        r
    }

    /// The loader with `path` tried after the paths already given.
    pub fn with_fallback_path(self, path: &str) -> (r: Self)
        ensures
            r.name() == self.name(),
            r.fallbacks() == self.fallbacks().push(path@),
    {
        let mut s = self;
        let ghost before = string_views(s.fallback_paths@);
        s.fallback_paths.push(String::from_str(path));
        assert(string_views(s.fallback_paths@) =~= before.push(path@));
        s
    }

    /// The message reporting that no candidate could be loaded.
    pub fn failure_message(&self) -> (r: String)
        ensures
            r@ == load_failure_message(self.name()),
    {
        let mut out: Vec<char> = Vec::new();
        push_str_chars(&mut out, "Failed to load library ");
        push_str_chars(&mut out, self.library_name.as_str());
        push_str_chars(&mut out, " and all fallback paths");
        string_from_chars(out.as_slice())
    }

    /// What to do after `attempt` failed tries: try the next candidate, or
    /// give up with the failure message once every candidate was tried.
    pub fn load_step(&self, attempt: usize) -> (r: LoadStep)
        ensures
            attempt < self.candidates().len() ==> (r matches LoadStep::Try(p) && p@
                == self.candidates()[attempt as int]),
            attempt >= self.candidates().len() ==> (r matches LoadStep::GiveUp(m) && m@
                == load_failure_message(self.name())),
    {
        if attempt == 0 {
            LoadStep::Try(self.library_name.clone())
        } else if attempt - 1 < self.fallback_paths.len() {
            let ghost k = attempt - 1;
            assert(self.candidates()[attempt as int] == self.fallbacks()[k]);
            LoadStep::Try(self.fallback_paths[attempt - 1].clone())
        } else {
            LoadStep::GiveUp(self.failure_message())
        }
    }
}

/// A table of API functions.
pub struct ApiTable<T> {
    functions: T,
    _phantom: PhantomData<T>,
}

impl<T> ApiTable<T> {
    /// The functions of the table.
    pub closed spec fn table(self) -> T {
        self.functions
    }

    /// A table holding `functions`.
    pub fn new(functions: T) -> (r: Self)
        ensures
            r.table() == functions,
    {
        ApiTable { functions, _phantom: PhantomData }
    }

    /// The functions of the table.
    pub fn functions(&self) -> (r: &T)
        ensures
            *r == self.table(),
    {
        &self.functions
    }
}

} // verus!
