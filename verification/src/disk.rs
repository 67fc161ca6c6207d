//! Generic text persistence for identity material: any disk entity knows a
//! fixed relative file name and a canonical text form. The file reads and
//! writes themselves happen outside this crate; here stand the text codecs
//! with their contracts, a model of a directory as a map from file names to
//! file texts, and the laws of saving and loading against that model.
use vstd::prelude::*;

verus! {

/// A value that can be persisted as text under a fixed file name inside a
/// caller-chosen directory, and parsed back.
///
/// `Model` is the mathematical content of the entity: what the text form
/// determines. Serialization must be faithful to it, and parsing must accept
/// exactly the texts that determine one.
pub trait DiskEntity: Sized {
    /// The mathematical content of one entity value.
    type Model;

    /// What this value's content is.
    spec fn model(&self) -> Self::Model;

    /// The fixed relative file name for this entity kind.
    spec fn spec_path() -> Seq<char>;

    /// What a text parses to for this entity kind, if anything.
    spec fn decoded(s: Seq<char>) -> Option<Self::Model>;

    /// The fixed human-readable description for diagnostics.
    spec fn spec_desc() -> Seq<char>;

    /// The fixed relative file name, as a string.
    fn path_name() -> (r: String)
        ensures
            r@ == Self::spec_path(),
    ;

    /// The fixed human-readable description, as a string.
    fn desc() -> (r: String)
        ensures
            r@ == Self::spec_desc(),
    ;

    /// The canonical text form: a text that determines exactly this value's
    /// content.
    fn to_repr(&self) -> (r: String)
        ensures
            Self::decoded(r@) == Some(self.model()),
    ;

    /// Parse a text back; absent exactly when the text determines no content.
    fn from_repr(s: &str) -> (r: Option<Self>)
        ensures
            r is Some <==> Self::decoded(s@) is Some,
            r matches Some(e) ==> Self::decoded(s@) == Some(e.model()),
    ;
}

/// What a directory holds, as a map from relative file names to file texts.
pub open spec fn dir_load<E: DiskEntity>(dir: Map<Seq<char>, Seq<char>>) -> Option<E::Model> {
    if dir.contains_key(E::spec_path()) {
        E::decoded(dir[E::spec_path()])
    } else {
        None
    }
}

/// What saving a text for an entity kind does to a directory: the file under
/// the entity's fixed name is created or overwritten with that text.
pub open spec fn dir_save<E: DiskEntity>(dir: Map<Seq<char>, Seq<char>>, text: Seq<char>) -> Map<
    Seq<char>,
    Seq<char>,
> {
    dir.insert(E::spec_path(), text)
}

/// Law: saving an entity's canonical text into any directory and loading the
/// same entity kind back yields exactly the saved value's content.
pub proof fn lemma_save_then_load<E: DiskEntity>(
    dir: Map<Seq<char>, Seq<char>>,
    e: E,
    text: Seq<char>,
)
    requires
        E::decoded(text) == Some(e.model()),
    ensures
        dir_load::<E>(dir_save::<E>(dir, text)) == Some(e.model()),
{
}

/// Law: saving twice for the same entity kind leaves only the second text;
/// the first save is invisible afterwards.
pub proof fn lemma_save_twice<E: DiskEntity>(
    dir: Map<Seq<char>, Seq<char>>,
    first: Seq<char>,
    second: Seq<char>,
)
    ensures
        dir_save::<E>(dir_save::<E>(dir, first), second) =~= dir_save::<E>(dir, second),
        dir_load::<E>(dir_save::<E>(dir_save::<E>(dir, first), second)) == E::decoded(second),
{
}

/// Law: loading any entity kind from an empty directory yields absence, not
/// an error.
pub proof fn lemma_load_empty<E: DiskEntity>()
    ensures
        dir_load::<E>(Map::empty()) is None,
{
}

} // verus!
