//! Container kinds and the set of capabilities that decide what is emitted.

use vstd::prelude::*;

verus! {

/// A target container: an ownership or concurrency container that holds a
/// value, or a serialized form of it.
#[derive(Clone, Copy, Debug, PartialEq, Eq, Structural)]
pub enum ContainerKind {
    /// Shared-ownership pointer.
    Arc,
    /// Cooperatively scheduled mutex.
    TokioMutex,
    /// Key/value map of the record's fields.
    HashMap,
    /// Blocking mutex.
    Mutex,
    /// Heap box.
    Boxed,
    /// Interior-mutable cell with run-time borrow checks.
    RefCell,
    /// Binary blob.
    Bin,
    /// Structured-text value.
    Toml,
    /// JSON value.
    Json,
    /// Growable list.
    Vec,
    /// Interior-mutable cell without checks.
    UnsafeCell,
    /// Cell that is initialised once.
    OnceCell,
}

/// Every container kind, in the order in which conversion methods are listed.
pub open spec fn all_kinds() -> Seq<ContainerKind> {
    seq![
        ContainerKind::Arc,
        ContainerKind::TokioMutex,
        ContainerKind::HashMap,
        ContainerKind::Mutex,
        ContainerKind::Boxed,
        ContainerKind::RefCell,
        ContainerKind::Bin,
        ContainerKind::Toml,
        ContainerKind::Json,
        ContainerKind::Vec,
        ContainerKind::UnsafeCell,
        ContainerKind::OnceCell,
    ]
}

/// The position of `kind` in [`all_kinds`].
pub open spec fn kind_index(kind: ContainerKind) -> int {
    match kind {
        ContainerKind::Arc => 0,
        ContainerKind::TokioMutex => 1,
        ContainerKind::HashMap => 2,
        ContainerKind::Mutex => 3,
        ContainerKind::Boxed => 4,
        ContainerKind::RefCell => 5,
        ContainerKind::Bin => 6,
        ContainerKind::Toml => 7,
        ContainerKind::Json => 8,
        ContainerKind::Vec => 9,
        ContainerKind::UnsafeCell => 10,
        ContainerKind::OnceCell => 11,
    }
}

impl ContainerKind {
    /// Whether the kind is a serialized form that the record can be
    /// reconstructed from.
    pub open spec fn is_serialized(self) -> bool {
        self == ContainerKind::Bin || self == ContainerKind::Toml || self == ContainerKind::Json
    }

    /// The suffix that names the kind in a wrapper type's name.
    pub open spec fn suffix(self) -> Seq<char> {
        match self {
            ContainerKind::Arc => "Arc"@,
            ContainerKind::TokioMutex => "TokioMutex"@,
            ContainerKind::HashMap => "HashMap"@,
            ContainerKind::Mutex => "Mutex"@,
            ContainerKind::Boxed => "Box"@,
            ContainerKind::RefCell => "RefCell"@,
            ContainerKind::Bin => "Bin"@,
            ContainerKind::Toml => "Toml"@,
            ContainerKind::Json => "Json"@,
            ContainerKind::Vec => "Vec"@,
            ContainerKind::UnsafeCell => "UnsafeCell"@,
            ContainerKind::OnceCell => "OnceCell"@,
        }
    }

    /// The name that every conversion into the kind carries, whatever the
    /// wrapper that offers it.
    pub open spec fn method(self) -> Seq<char> {
        match self {
            ContainerKind::Arc => "arc"@,
            ContainerKind::TokioMutex => "tokio_mutex"@,
            ContainerKind::HashMap => "hashmap"@,
            ContainerKind::Mutex => "mutex"@,
            ContainerKind::Boxed => "boxed"@,
            ContainerKind::RefCell => "ref_cell"@,
            ContainerKind::Bin => "bin"@,
            ContainerKind::Toml => "toml"@,
            ContainerKind::Json => "json"@,
            ContainerKind::Vec => "vec"@,
            ContainerKind::UnsafeCell => "unsafe_cell"@,
            ContainerKind::OnceCell => "once_cell"@,
        }
    }

    /// The type that the kind makes of a value of type `inner`. A serialized
    /// form does not depend on `inner`.
    pub open spec fn applied_to(self, inner: Seq<char>) -> Seq<char> {
        match self {
            ContainerKind::Arc => "std::sync::Arc<"@ + inner + ">"@,
            ContainerKind::TokioMutex => "tokio::sync::Mutex<"@ + inner + ">"@,
            ContainerKind::HashMap =>
                "std::collections::HashMap<String, Box<dyn std::any::Any + Send + Sync>>"@,
            ContainerKind::Mutex => "std::sync::Mutex<"@ + inner + ">"@,
            ContainerKind::Boxed => "Box<"@ + inner + ">"@,
            ContainerKind::RefCell => "std::cell::RefCell<"@ + inner + ">"@,
            ContainerKind::Bin => "Vec<u8>"@,
            ContainerKind::Toml => "toml::Value"@,
            ContainerKind::Json => "serde_json::Value"@,
            ContainerKind::Vec => "Vec<"@ + inner + ">"@,
            ContainerKind::UnsafeCell => "std::cell::UnsafeCell<"@ + inner + ">"@,
            ContainerKind::OnceCell => "std::cell::OnceCell<"@ + inner + ">"@,
        }
    }

    /// Whether a conversion into the kind returns a result: the codecs behind
    /// the binary, structured-text and JSON forms report errors.
    pub open spec fn is_fallible(self) -> bool {
        self.is_serialized()
    }

    /// Whether the kind is a serialized form.
    pub fn serialized(self) -> (b: bool)
        ensures
            b == self.is_serialized(),
    {
        match self {
            ContainerKind::Bin | ContainerKind::Toml | ContainerKind::Json => true,
            _ => false,
        }
    }

    /// The suffix that names the kind in a wrapper type's name.
    pub fn suffix_name(self) -> (s: &'static str)
        ensures
            s@ == self.suffix(),
    {
        match self {
            ContainerKind::Arc => "Arc",
            ContainerKind::TokioMutex => "TokioMutex",
            ContainerKind::HashMap => "HashMap",
            ContainerKind::Mutex => "Mutex",
            ContainerKind::Boxed => "Box",
            ContainerKind::RefCell => "RefCell",
            ContainerKind::Bin => "Bin",
            ContainerKind::Toml => "Toml",
            ContainerKind::Json => "Json",
            ContainerKind::Vec => "Vec",
            ContainerKind::UnsafeCell => "UnsafeCell",
            ContainerKind::OnceCell => "OnceCell",
        }
    }

    /// The name of the conversion into the kind.
    pub fn method_name(self) -> (s: &'static str)
        ensures
            s@ == self.method(),
    {
        match self {
            ContainerKind::Arc => "arc",
            ContainerKind::TokioMutex => "tokio_mutex",
            ContainerKind::HashMap => "hashmap",
            ContainerKind::Mutex => "mutex",
            ContainerKind::Boxed => "boxed",
            ContainerKind::RefCell => "ref_cell",
            ContainerKind::Bin => "bin",
            ContainerKind::Toml => "toml",
            ContainerKind::Json => "json",
            ContainerKind::Vec => "vec",
            ContainerKind::UnsafeCell => "unsafe_cell",
            ContainerKind::OnceCell => "once_cell",
        }
    }

    /// The type that the kind makes of a value of type `inner`.
    pub fn apply(self, inner: &str) -> (ty: String)
        ensures
            ty@ == self.applied_to(inner@),
    {
        match self {
            ContainerKind::Arc => generic("std::sync::Arc<", inner),
            ContainerKind::TokioMutex => generic("tokio::sync::Mutex<", inner),
            ContainerKind::HashMap => String::from_str(
                "std::collections::HashMap<String, Box<dyn std::any::Any + Send + Sync>>",
            ),
            ContainerKind::Mutex => generic("std::sync::Mutex<", inner),
            ContainerKind::Boxed => generic("Box<", inner),
            ContainerKind::RefCell => generic("std::cell::RefCell<", inner),
            ContainerKind::Bin => String::from_str("Vec<u8>"),
            ContainerKind::Toml => String::from_str("toml::Value"),
            ContainerKind::Json => String::from_str("serde_json::Value"),
            ContainerKind::Vec => generic("Vec<", inner),
            ContainerKind::UnsafeCell => generic("std::cell::UnsafeCell<", inner),
            ContainerKind::OnceCell => generic("std::cell::OnceCell<", inner),
        }
    }
}

/// `open`, then `inner`, then a closing angle bracket.
fn generic(open: &str, inner: &str) -> (ty: String)
    ensures
        ty@ == open@ + inner@ + ">"@,
{
    let mut ty = String::from_str(open);
    ty.append(inner);
    ty.append(">");
    ty
}

/// The kinds of [`all_kinds`], in that order.
pub fn kinds_in_order() -> (kinds: [ContainerKind; 12])
    ensures
        kinds@ == all_kinds(),
{
    let kinds = [
        ContainerKind::Arc,
        ContainerKind::TokioMutex,
        ContainerKind::HashMap,
        ContainerKind::Mutex,
        ContainerKind::Boxed,
        ContainerKind::RefCell,
        ContainerKind::Bin,
        ContainerKind::Toml,
        ContainerKind::Json,
        ContainerKind::Vec,
        ContainerKind::UnsafeCell,
        ContainerKind::OnceCell,
    ];
    assert(kinds@ =~= all_kinds());
    kinds
}

/// The optional capabilities that are active for one expansion. Each is
/// independent of the others; any subset may be active.
#[derive(Clone, Copy, Debug, PartialEq, Eq, Structural)]
pub struct CapabilitySet {
    pub arc: bool,
    pub tokio: bool,
    pub hashmap: bool,
    pub mutex: bool,
    pub boxed: bool,
    pub refcell: bool,
    pub bincode: bool,
    pub toml: bool,
    pub serde_json: bool,
    pub vec: bool,
    pub unsafecell: bool,
    pub oncecell: bool,
    /// Positional read of every field as a tuple of references.
    pub tuple: bool,
    /// Credential hashing of text fields.
    pub argon2: bool,
}

impl CapabilitySet {
    /// Whether the wrapper of `kind`, and the conversions into it, are active.
    pub open spec fn enables(self, kind: ContainerKind) -> bool {
        match kind {
            ContainerKind::Arc => self.arc,
            ContainerKind::TokioMutex => self.tokio,
            ContainerKind::HashMap => self.hashmap,
            ContainerKind::Mutex => self.mutex,
            ContainerKind::Boxed => self.boxed,
            ContainerKind::RefCell => self.refcell,
            ContainerKind::Bin => self.bincode,
            ContainerKind::Toml => self.toml,
            ContainerKind::Json => self.serde_json,
            ContainerKind::Vec => self.vec,
            ContainerKind::UnsafeCell => self.unsafecell,
            ContainerKind::OnceCell => self.oncecell,
        }
    }

    /// The set with no capability active.
    pub fn none() -> (caps: CapabilitySet)
        ensures
            forall|kind: ContainerKind| !caps.enables(kind),
            !caps.tuple,
            !caps.argon2,
    {
        CapabilitySet {
            arc: false,
            tokio: false,
            hashmap: false,
            mutex: false,
            boxed: false,
            refcell: false,
            bincode: false,
            toml: false,
            serde_json: false,
            vec: false,
            unsafecell: false,
            oncecell: false,
            tuple: false,
            argon2: false,
        }
    }

    /// The set with every capability active.
    pub fn full() -> (caps: CapabilitySet)
        ensures
            forall|kind: ContainerKind| caps.enables(kind),
            caps.tuple,
            caps.argon2,
    {
        CapabilitySet {
            arc: true,
            tokio: true,
            hashmap: true,
            mutex: true,
            boxed: true,
            refcell: true,
            bincode: true,
            toml: true,
            serde_json: true,
            vec: true,
            unsafecell: true,
            oncecell: true,
            tuple: true,
            argon2: true,
        }
    }

    /// Whether `kind` is active.
    pub fn has(&self, kind: ContainerKind) -> (b: bool)
        ensures
            b == self.enables(kind),
    {
        match kind {
            ContainerKind::Arc => self.arc,
            ContainerKind::TokioMutex => self.tokio,
            ContainerKind::HashMap => self.hashmap,
            ContainerKind::Mutex => self.mutex,
            ContainerKind::Boxed => self.boxed,
            ContainerKind::RefCell => self.refcell,
            ContainerKind::Bin => self.bincode,
            ContainerKind::Toml => self.toml,
            ContainerKind::Json => self.serde_json,
            ContainerKind::Vec => self.vec,
            ContainerKind::UnsafeCell => self.unsafecell,
            ContainerKind::OnceCell => self.oncecell,
        }
    }
}

} // verus!
