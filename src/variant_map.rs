use vstd::prelude::*;
use dbus::arg::{PropMap, Variant};

verus! {

/// A value that a variant map can hold, as the option arguments use it.
pub enum VariantValue {
    /// A D-Bus string.
    Text(Seq<char>),
    /// A D-Bus boolean.
    Flag(bool),
}

/// A string-keyed map of dynamically typed values: the "named optional
/// arguments" of a portal call, as D-Bus carries them (`a{sv}`).
///
/// The dbus map is public so that callers outside the verified code can hand
/// it to a method call; contracts speak of it through `variant_map_contents`.
#[verifier::external_body]
pub struct VariantMap {
    pub map: PropMap,
}

/// What a variant map holds, key by key: the dbus map's entries, each
/// boxed string or boolean read as the `VariantValue` it stands for.
pub uninterp spec fn variant_map_contents(m: VariantMap) -> Map<Seq<char>, VariantValue>;

/// The contents of an empty map.
pub open spec fn no_entries() -> Map<Seq<char>, VariantValue> {
    Map::empty()
}

impl VariantMap {
    /// Relies on `HashMap::new`: the map starts empty.
    #[verifier::external_body]
    pub(crate) fn new() -> (r: VariantMap)
        ensures
            variant_map_contents(r) == no_entries(),
    {
        VariantMap { map: PropMap::new() }
    }

    /// Relies on `HashMap::insert`, with the string boxed in a dbus `Variant`:
    /// the key now maps to that string, and every other key is kept.
    #[verifier::external_body]
    pub(crate) fn insert_text(&mut self, key: String, value: String)
        ensures
            variant_map_contents(*final(self)) == variant_map_contents(*old(self)).insert(
                key@,
                VariantValue::Text(value@),
            ),
    {
        self.map.insert(key, Variant(Box::new(value)));
    }

    /// Relies on `HashMap::insert`, with the boolean boxed in a dbus
    /// `Variant`: the key now maps to that boolean, and every other key is
    /// kept.
    #[verifier::external_body]
    pub(crate) fn insert_flag(&mut self, key: String, value: bool)
        ensures
            variant_map_contents(*final(self)) == variant_map_contents(*old(self)).insert(
                key@,
                VariantValue::Flag(value),
            ),
    {
        self.map.insert(key, Variant(Box::new(value)));
    }
}

} // verus!
