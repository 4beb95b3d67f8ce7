use vstd::prelude::*;
use crate::variant_map::{no_entries, variant_map_contents, VariantMap, VariantValue};

verus! {

/// Key of the `handle_token` option in the variant map.
pub const HANDLE_TOKEN_KEY: &'static str = "handle_token";

/// Key of the `writable` option in the variant map.
pub const WRITABLE_KEY: &'static str = "writable";

/// Key of the `ask` option in the variant map.
pub const ASK_KEY: &'static str = "ask";

/// Key of the `activation_token` option in the variant map.
pub const ACTIVATION_TOKEN_KEY: &'static str = "activation_token";

/// The revision of the interface that introduced the `ask` option.
pub const ASK_SINCE_VERSION: u32 = 3;

/// The revision of the interface that introduced the `activation_token`
/// option.
pub const ACTIVATION_TOKEN_SINCE_VERSION: u32 = 4;

/// What an `OpenURIOptions` holds: each optional argument, `None` when unset.
pub struct OptionsModel {
    pub handle_token: Option<Seq<char>>,
    pub writable: Option<bool>,
    pub ask: Option<bool>,
    pub activation_token: Option<Seq<char>>,
    /// The revision of the interface that the options are meant for; `None`
    /// when none was given, and every option may be sent.
    pub interface_version: Option<u32>,
}

impl OptionsModel {
    /// No argument set, and no interface revision given.
    pub open spec fn empty() -> OptionsModel {
        OptionsModel {
            handle_token: None,
            writable: None,
            ask: None,
            activation_token: None,
            interface_version: None,
        }
    }

    /// The same options, meant for revision `v` of the interface.
    pub open spec fn with_interface_version(self, v: u32) -> OptionsModel {
        OptionsModel { interface_version: Some(v), ..self }
    }

    /// Whether an option that revision `since` of the interface introduced
    /// may be sent with these options.
    pub open spec fn allows(self, since: u32) -> bool {
        match self.interface_version {
            Some(v) => since <= v,
            None => true,
        }
    }

    /// The options that go on the wire: those that the interface revision
    /// allows, with no revision attached.
    pub open spec fn sent(self) -> OptionsModel {
        OptionsModel {
            handle_token: self.handle_token,
            writable: self.writable,
            ask: if self.allows(ASK_SINCE_VERSION) {
                self.ask
            } else {
                None
            },
            activation_token: if self.allows(ACTIVATION_TOKEN_SINCE_VERSION) {
                self.activation_token
            } else {
                None
            },
            interface_version: None,
        }
    }

    /// The same options with `handle_token` set to `v`.
    pub open spec fn with_handle_token(self, v: Seq<char>) -> OptionsModel {
        OptionsModel { handle_token: Some(v), ..self }
    }

    /// The same options with `writable` set to `v`.
    pub open spec fn with_writable(self, v: bool) -> OptionsModel {
        OptionsModel { writable: Some(v), ..self }
    }

    /// The same options with `ask` set to `v`.
    pub open spec fn with_ask(self, v: bool) -> OptionsModel {
        OptionsModel { ask: Some(v), ..self }
    }

    /// The same options with `activation_token` set to `v`.
    pub open spec fn with_activation_token(self, v: Seq<char>) -> OptionsModel {
        OptionsModel { activation_token: Some(v), ..self }
    }
}

/// `m` with `k` mapped to `v` when `v` is there, `m` itself otherwise.
pub open spec fn insert_if_set(
    m: Map<Seq<char>, VariantValue>,
    k: Seq<char>,
    v: Option<VariantValue>,
) -> Map<Seq<char>, VariantValue> {
    match v {
        Some(x) => m.insert(k, x),
        None => m,
    }
}

/// The map entry for a string option, if it is set.
pub open spec fn text_value(v: Option<Seq<char>>) -> Option<VariantValue> {
    match v {
        Some(s) => Some(VariantValue::Text(s)),
        None => None,
    }
}

/// The map entry for a boolean option, if it is set.
pub open spec fn flag_value(v: Option<bool>) -> Option<VariantValue> {
    match v {
        Some(b) => Some(VariantValue::Flag(b)),
        None => None,
    }
}

/// The variant map that stands for the options `o`: one entry for each
/// option that is set and that the interface revision allows, under its
/// fixed key, and nothing else.
pub open spec fn variant_map_of(o: OptionsModel) -> Map<Seq<char>, VariantValue> {
    let s = o.sent();
    let m = insert_if_set(no_entries(), HANDLE_TOKEN_KEY@, text_value(s.handle_token));
    let m = insert_if_set(m, WRITABLE_KEY@, flag_value(s.writable));
    let m = insert_if_set(m, ASK_KEY@, flag_value(s.ask));
    insert_if_set(m, ACTIVATION_TOKEN_KEY@, text_value(s.activation_token))
}

/// The option that entry `v` of a variant map stands for, when it holds a
/// string.
pub open spec fn text_of(v: Option<VariantValue>) -> Option<Seq<char>> {
    match v {
        Some(VariantValue::Text(s)) => Some(s),
        _ => None,
    }
}

/// The option that entry `v` of a variant map stands for, when it holds a
/// boolean.
pub open spec fn flag_of(v: Option<VariantValue>) -> Option<bool> {
    match v {
        Some(VariantValue::Flag(b)) => Some(b),
        _ => None,
    }
}

/// The options that a variant map holds, read back key by key.
pub open spec fn options_of_map(m: Map<Seq<char>, VariantValue>) -> OptionsModel {
    OptionsModel {
        handle_token: text_of(m.get(HANDLE_TOKEN_KEY@)),
        writable: flag_of(m.get(WRITABLE_KEY@)),
        ask: flag_of(m.get(ASK_KEY@)),
        activation_token: text_of(m.get(ACTIVATION_TOKEN_KEY@)),
        interface_version: None,
    }
}

/// The four option keys are distinct.
proof fn lemma_keys_distinct()
    ensures
        HANDLE_TOKEN_KEY@ != WRITABLE_KEY@,
        HANDLE_TOKEN_KEY@ != ASK_KEY@,
        HANDLE_TOKEN_KEY@ != ACTIVATION_TOKEN_KEY@,
        WRITABLE_KEY@ != ASK_KEY@,
        WRITABLE_KEY@ != ACTIVATION_TOKEN_KEY@,
        ASK_KEY@ != ACTIVATION_TOKEN_KEY@,
{
    reveal_strlit("handle_token");
    reveal_strlit("writable");
    reveal_strlit("ask");
    reveal_strlit("activation_token");
    assert(HANDLE_TOKEN_KEY@.len() != WRITABLE_KEY@.len());
    assert(HANDLE_TOKEN_KEY@.len() != ASK_KEY@.len());
    assert(HANDLE_TOKEN_KEY@[0] != ACTIVATION_TOKEN_KEY@[0]);
    assert(WRITABLE_KEY@.len() != ASK_KEY@.len());
    assert(WRITABLE_KEY@.len() != ACTIVATION_TOKEN_KEY@.len());
    assert(ASK_KEY@.len() != ACTIVATION_TOKEN_KEY@.len());
}

/// The variant map of any options holds a key exactly when the option of
/// that name is set (and, for `ask` and `activation_token`, allowed by the
/// interface revision), and then holds the value it was set to; it holds no
/// key besides the four option names. With no revision given, a key is there
/// exactly when its option is set.
pub proof fn lemma_variant_map_keys(o: OptionsModel)
    ensures
        variant_map_of(o).get(HANDLE_TOKEN_KEY@) == text_value(o.handle_token),
        variant_map_of(o).get(WRITABLE_KEY@) == flag_value(o.writable),
        variant_map_of(o).get(ASK_KEY@) == if o.allows(ASK_SINCE_VERSION) {
            flag_value(o.ask)
        } else {
            None
        },
        variant_map_of(o).get(ACTIVATION_TOKEN_KEY@) == if o.allows(
            ACTIVATION_TOKEN_SINCE_VERSION,
        ) {
            text_value(o.activation_token)
        } else {
            None
        },
        o.interface_version is None ==> {
            &&& variant_map_of(o).contains_key(ASK_KEY@) <==> o.ask is Some
            &&& variant_map_of(o).contains_key(ACTIVATION_TOKEN_KEY@) <==> o.activation_token is Some
        },
        forall|k: Seq<char>|
            #[trigger] variant_map_of(o).contains_key(k) ==> k == HANDLE_TOKEN_KEY@ || k
                == WRITABLE_KEY@ || k == ASK_KEY@ || k == ACTIVATION_TOKEN_KEY@,
{
    lemma_keys_distinct();
}

/// Setting an option twice keeps only the value set last, for each of the
/// four setters.
pub proof fn lemma_last_set_wins(
    o: OptionsModel,
    first_text: Seq<char>,
    second_text: Seq<char>,
    first_flag: bool,
    second_flag: bool,
)
    ensures
        o.with_handle_token(first_text).with_handle_token(second_text) == o.with_handle_token(
            second_text,
        ),
        o.with_writable(first_flag).with_writable(second_flag) == o.with_writable(second_flag),
        o.with_ask(first_flag).with_ask(second_flag) == o.with_ask(second_flag),
        o.with_activation_token(first_text).with_activation_token(second_text)
            == o.with_activation_token(second_text),
{
}

/// Converting options to a variant map and reading the four keys back gives
/// the options that were sent, field for field, whichever of them are set;
/// with no interface revision given, that is the options themselves.
pub proof fn lemma_variant_map_round_trip(o: OptionsModel)
    ensures
        options_of_map(variant_map_of(o)) == o.sent(),
        o.interface_version is None ==> options_of_map(variant_map_of(o)) == o,
{
    lemma_variant_map_keys(o);
}

/// Optional arguments for the OpenURI methods.
pub struct OpenURIOptions {
    handle_token: Option<String>,
    writable: Option<bool>,
    ask: Option<bool>,
    activation_token: Option<String>,
    interface_version: Option<u32>,
}

impl View for OpenURIOptions {
    type V = OptionsModel;

    closed spec fn view(&self) -> OptionsModel {
        OptionsModel {
            handle_token: match self.handle_token {
                Some(s) => Some(s@),
                None => None,
            },
            writable: self.writable,
            ask: self.ask,
            activation_token: match self.activation_token {
                Some(s) => Some(s@),
                None => None,
            },
            interface_version: self.interface_version,
        }
    }
}

impl Default for OpenURIOptions {
    /// The same as `OpenURIOptions::new()`: no argument set.
    fn default() -> (r: Self)
        ensures
            r@ == OptionsModel::empty(),
    {
        OpenURIOptions::new()
    }
}

impl OpenURIOptions {
    /// Creates a new `OpenURIOptions` with no argument set.
    pub fn new() -> (r: Self)
        ensures
            r@ == OptionsModel::empty(),
    {
        OpenURIOptions {
            handle_token: None,
            writable: None,
            ask: None,
            activation_token: None,
            interface_version: None,
        }
    }

    /// A string that will be used as the last element of the request handle.
    /// It must be a valid object path element; the portal checks that, and
    /// fails the call if it is not.
    pub fn handle_token(self, handle_token: String) -> (r: Self)
        ensures
            r@ == self@.with_handle_token(handle_token@),
    {
        OpenURIOptions { handle_token: Some(handle_token), ..self }
    }

    /// Whether to allow the chosen application to write to the file.
    ///
    /// This only takes effect when the uri points to a local file that is
    /// exported in the document portal, and the chosen application is
    /// sandboxed itself.
    pub fn writable(self, writable: bool) -> (r: Self)
        ensures
            r@ == self@.with_writable(writable),
    {
        OpenURIOptions { writable: Some(writable), ..self }
    }

    /// Whether to ask the user to choose an application. If this is not
    /// passed, or false, the portal may use a default or the last choice.
    ///
    /// The ask option was introduced in version 3 of the interface.
    pub fn ask(self, ask: bool) -> (r: Self)
        ensures
            r@ == self@.with_ask(ask),
    {
        OpenURIOptions { ask: Some(ask), ..self }
    }

    /// A token that can be used to activate the chosen application.
    ///
    /// The activation_token option was introduced in version 4 of the
    /// interface.
    pub fn activation_token(self, activation_token: String) -> (r: Self)
        ensures
            r@ == self@.with_activation_token(activation_token@),
    {
        OpenURIOptions { activation_token: Some(activation_token), ..self }
    }

    /// Targets a portal that serves revision `version` of the interface:
    /// options that a later revision introduced stay out of the variant map.
    /// Without this, every option that is set is sent.
    pub fn interface_version(self, version: u32) -> (r: Self)
        ensures
            r@ == self@.with_interface_version(version),
    {
        OpenURIOptions { interface_version: Some(version), ..self }
    }

    /// Whether an option that revision `since` of the interface introduced
    /// may be sent with these options.
    fn allows(&self, since: u32) -> (r: bool)
        ensures
            r == self@.allows(since),
    {
        match self.interface_version {
            Some(v) => since <= v,
            None => true,
        }
    }

    /// Converts the options into the variant map that the portal methods
    /// take: each option that was set, under its fixed key, wrapped as a
    /// variant of its own type (string or boolean). Unset options are left
    /// out entirely, and so are options that the interface revision given
    /// does not know.
    pub fn into_variant_map(self) -> (r: VariantMap)
        ensures
            variant_map_contents(r) == variant_map_of(self@),
    {
        let send_ask = self.allows(ASK_SINCE_VERSION);
        let send_activation_token = self.allows(ACTIVATION_TOKEN_SINCE_VERSION);
        let mut map = VariantMap::new();
        if let Some(handle_token) = self.handle_token {
            map.insert_text(HANDLE_TOKEN_KEY.to_owned(), handle_token);
        }
        if let Some(writable) = self.writable {
            map.insert_flag(WRITABLE_KEY.to_owned(), writable);
        }
        if let Some(ask) = self.ask {
            if send_ask {
                map.insert_flag(ASK_KEY.to_owned(), ask);
            }
        }
        if let Some(activation_token) = self.activation_token {
            if send_activation_token {
                map.insert_text(ACTIVATION_TOKEN_KEY.to_owned(), activation_token);
            }
        }
        map
    }
}

impl From<OpenURIOptions> for VariantMap {
    /// The variant map of the options; see `OpenURIOptions::into_variant_map`.
    fn from(options: OpenURIOptions) -> (r: VariantMap)
        ensures
            variant_map_contents(r) == variant_map_of(options@),
    {
        options.into_variant_map()
    }
}

impl vstd::std_specs::convert::FromSpecImpl<OpenURIOptions> for VariantMap {
    /// A variant map is opaque, so no single spec value is the result;
    /// `from` states what the result holds instead.
    open spec fn obeys_from_spec() -> bool {
        false
    }

    open spec fn from_spec(options: OpenURIOptions) -> VariantMap {
        arbitrary()
    }
}

} // verus!
