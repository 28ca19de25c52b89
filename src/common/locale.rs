//! Locale data attached to every validation failure, the closed set of
//! failure causes, and the collector / store pair that accumulates them.
use crate::base::date_time::{DateTimeMandatoryLocale, DateTimeRangeLocale};
use crate::base::number_rules::{NumberMandatoryLocale, NumberRangeLocale};
use crate::base::string_rules::{StringLengthLocale, StringMandatoryLocale, StringSpecialCharLocale};
use crate::types::email::EmailAddressLocale;
use crate::types::password::PasswordDoesNotMatchLocale;
use crate::types::web_url::UrlValueLocale;
use crate::types::username::UsernameTakenLocale;
use std::sync::Arc;
use vstd::prelude::*;

verus! {

/// A typed argument handed to a locale renderer.
#[derive(Clone, Debug)]
pub enum LocaleValue {
    String(String),
    Uint(usize),
    Int(isize),
}

/// What a `LocaleValue` holds.
pub enum LocaleValueView {
    String(Seq<char>),
    Uint(usize),
    Int(isize),
}

impl View for LocaleValue {
    type V = LocaleValueView;

    open spec fn view(&self) -> LocaleValueView {
        match self {
            LocaleValue::String(s) => LocaleValueView::String(s@),
            LocaleValue::Uint(u) => LocaleValueView::Uint(*u),
            LocaleValue::Int(i) => LocaleValueView::Int(*i),
        }
    }
}

impl LocaleValue {
    pub fn duplicate(&self) -> (r: LocaleValue)
        ensures
            r@ == self@,
    {
        match self {
            LocaleValue::String(s) => LocaleValue::String(s.clone()),
            LocaleValue::Uint(u) => LocaleValue::Uint(*u),
            LocaleValue::Int(i) => LocaleValue::Int(*i),
        }
    }
}

impl From<String> for LocaleValue {
    fn from(s: String) -> (r: LocaleValue) {
        LocaleValue::String(s)
    }
}

impl vstd::std_specs::convert::FromSpecImpl<String> for LocaleValue {
    open spec fn obeys_from_spec() -> bool {
        true
    }

    open spec fn from_spec(s: String) -> LocaleValue {
        LocaleValue::String(s)
    }
}

impl From<&str> for LocaleValue {
    fn from(s: &str) -> (r: LocaleValue) {
        LocaleValue::String(String::from_str(s))
    }
}

/// A text slice has no `String` to name at the spec level, so the conversion
/// claims no spec; `LocaleValue::from_text` states what it returns.
impl vstd::std_specs::convert::FromSpecImpl<&str> for LocaleValue {
    open spec fn obeys_from_spec() -> bool {
        false
    }

    open spec fn from_spec(s: &str) -> LocaleValue {
        LocaleValue::Uint(0)
    }
}

impl LocaleValue {
    /// A text argument holding a copy of `s`.
    pub fn from_text(s: &str) -> (r: LocaleValue)
        ensures
            r@ == LocaleValueView::String(s@),
    {
        LocaleValue::String(String::from_str(s))
    }
}

impl From<usize> for LocaleValue {
    fn from(u: usize) -> (r: LocaleValue) {
        LocaleValue::Uint(u)
    }
}

impl vstd::std_specs::convert::FromSpecImpl<usize> for LocaleValue {
    open spec fn obeys_from_spec() -> bool {
        true
    }

    open spec fn from_spec(u: usize) -> LocaleValue {
        LocaleValue::Uint(u)
    }
}

impl From<isize> for LocaleValue {
    fn from(i: isize) -> (r: LocaleValue) {
        LocaleValue::Int(i)
    }
}

impl vstd::std_specs::convert::FromSpecImpl<isize> for LocaleValue {
    open spec fn obeys_from_spec() -> bool {
        true
    }

    open spec fn from_spec(i: isize) -> LocaleValue {
        LocaleValue::Int(i)
    }
}

pub type LocaleArgsView = Seq<(Seq<char>, LocaleValueView)>;

/// A locale key together with its named arguments, for an outside renderer.
#[derive(Clone, Debug)]
pub struct LocaleData {
    pub name: String,
    pub args: Vec<(String, LocaleValue)>,
}

/// What a `LocaleData` holds: the key and the arguments in order.
pub struct LocaleDataView {
    pub name: Seq<char>,
    pub args: LocaleArgsView,
}

pub open spec fn args_view(args: Seq<(String, LocaleValue)>) -> LocaleArgsView {
    args.map_values(|a: (String, LocaleValue)| (a.0@, a.1@))
}

impl View for LocaleData {
    type V = LocaleDataView;

    open spec fn view(&self) -> LocaleDataView {
        LocaleDataView { name: self.name@, args: args_view(self.args@) }
    }
}

/// Locale data with a key and no argument.
pub open spec fn plain_locale(name: Seq<char>) -> LocaleDataView {
    LocaleDataView { name, args: seq![] }
}

/// Locale data with a key and one argument.
pub open spec fn locale_with(name: Seq<char>, key: Seq<char>, value: LocaleValueView) -> LocaleDataView {
    LocaleDataView { name, args: seq![(key, value)] }
}

/// The argument stored last under `key`, as a map built from the list would hold it.
pub open spec fn arg_lookup(args: LocaleArgsView, key: Seq<char>) -> Option<LocaleValueView>
    decreases args.len(),
{
    if args.len() == 0 {
        None
    } else if args.last().0 == key {
        Some(args.last().1)
    } else {
        arg_lookup(args.drop_last(), key)
    }
}

impl LocaleData {
    /// Locale data with the given key and no argument.
    pub fn new(name: &str) -> (r: LocaleData)
        ensures
            r@ == plain_locale(name@),
    {
        let args: Vec<(String, LocaleValue)> = Vec::new();
        assert(args_view(args@) =~= seq![]);
        LocaleData { name: String::from_str(name), args }
    }

    /// Locale data with the given key and arguments.
    pub fn new_with_vec(name: &str, args: Vec<(String, LocaleValue)>) -> (r: LocaleData)
        ensures
            r@ == (LocaleDataView { name: name@, args: args_view(args@) }),
    {
        LocaleData { name: String::from_str(name), args }
    }

    /// The argument stored under `key`; where a key repeats, the last one.
    pub fn arg(&self, key: &str) -> (r: Option<&LocaleValue>)
        ensures
            match r {
                Some(v) => arg_lookup(self@.args, key@) == Some(v@),
                None => arg_lookup(self@.args, key@) is None,
            },
    {
        let mut i: usize = self.args.len();
        assert(self.args@.take(i as int) =~= self.args@);
        while i > 0
            invariant
                i <= self.args.len(),
                arg_lookup(self@.args, key@) == arg_lookup(args_view(self.args@.take(i as int)), key@),
            decreases i,
        {
            let ghost prefix = args_view(self.args@.take(i as int));
            assert(prefix.drop_last() =~= args_view(self.args@.take(i - 1)));
            let entry_key = String::from_str(key);
            if self.args[i - 1].0 == entry_key {
                return Some(&self.args[i - 1].1);
            }
            i = i - 1;
        }
        None
    }
}

/// A one-entry argument list.
pub fn one_arg(key: &str, value: LocaleValue) -> (r: Vec<(String, LocaleValue)>)
    ensures
        args_view(r@) == seq![(key@, value@)],
{
    let mut args: Vec<(String, LocaleValue)> = Vec::new();
    args.push((String::from_str(key), value));
    assert(args_view(args@) =~= seq![(key@, value@)]);
    args
}

/// Anything that can say which locale key and arguments describe it.
pub trait LocaleMessage {
    spec fn locale_view(&self) -> LocaleDataView;

    fn get_locale_data(&self) -> (r: LocaleData)
        ensures
            r@ == self.locale_view(),
    ;
}

impl LocaleMessage for LocaleData {
    open spec fn locale_view(&self) -> LocaleDataView {
        self@
    }

    fn get_locale_data(&self) -> (r: LocaleData) {
        let mut args: Vec<(String, LocaleValue)> = Vec::new();
        let mut i: usize = 0;
        while i < self.args.len()
            invariant
                i <= self.args.len(),
                args_view(args@) == args_view(self.args@.take(i as int)),
            decreases self.args.len() - i,
        {
            args.push((self.args[i].0.clone(), self.args[i].1.duplicate()));
            assert(args_view(self.args@.take(i + 1)) == args_view(self.args@.take(i as int)).push(
                (self.args@[i as int].0@, self.args@[i as int].1@),
            ));
            i = i + 1;
        }
        assert(self.args@.take(self.args.len() as int) == self.args@);
        LocaleData { name: self.name.clone(), args }
    }
}

/// Every cause of failure that a rule or a field type can report.
#[derive(Debug)]
pub enum ErrorCause {
    StringMandatory(StringMandatoryLocale),
    StringLength(StringLengthLocale),
    StringSpecialChar(StringSpecialCharLocale),
    NumberMandatory(NumberMandatoryLocale),
    NumberRange(NumberRangeLocale),
    DateTimeMandatory(DateTimeMandatoryLocale),
    DateTimeRange(DateTimeRangeLocale),
    EmailAddress(EmailAddressLocale),
    UrlValue(UrlValueLocale),
    PasswordDoesNotMatch(PasswordDoesNotMatchLocale),
    UsernameTaken(UsernameTakenLocale),
    Data(LocaleData),
}

impl LocaleMessage for ErrorCause {
    open spec fn locale_view(&self) -> LocaleDataView {
        match self {
            ErrorCause::StringMandatory(c) => c.locale_view(),
            ErrorCause::StringLength(c) => c.locale_view(),
            ErrorCause::StringSpecialChar(c) => c.locale_view(),
            ErrorCause::NumberMandatory(c) => c.locale_view(),
            ErrorCause::NumberRange(c) => c.locale_view(),
            ErrorCause::DateTimeMandatory(c) => c.locale_view(),
            ErrorCause::DateTimeRange(c) => c.locale_view(),
            ErrorCause::EmailAddress(c) => c.locale_view(),
            ErrorCause::UrlValue(c) => c.locale_view(),
            ErrorCause::PasswordDoesNotMatch(c) => c.locale_view(),
            ErrorCause::UsernameTaken(c) => c.locale_view(),
            ErrorCause::Data(c) => c.locale_view(),
        }
    }

    fn get_locale_data(&self) -> (r: LocaleData) {
        match self {
            ErrorCause::StringMandatory(c) => c.get_locale_data(),
            ErrorCause::StringLength(c) => c.get_locale_data(),
            ErrorCause::StringSpecialChar(c) => c.get_locale_data(),
            ErrorCause::NumberMandatory(c) => c.get_locale_data(),
            ErrorCause::NumberRange(c) => c.get_locale_data(),
            ErrorCause::DateTimeMandatory(c) => c.get_locale_data(),
            ErrorCause::DateTimeRange(c) => c.get_locale_data(),
            ErrorCause::EmailAddress(c) => c.get_locale_data(),
            ErrorCause::UrlValue(c) => c.get_locale_data(),
            ErrorCause::PasswordDoesNotMatch(c) => c.get_locale_data(),
            ErrorCause::UsernameTaken(c) => c.get_locale_data(),
            ErrorCause::Data(c) => c.get_locale_data(),
        }
    }
}

/// One collected failure: the original message and the cause's locale data.
pub type EntryView = (Seq<char>, LocaleDataView);

pub open spec fn entries_view(v: Seq<(String, ErrorCause)>) -> Seq<EntryView> {
    v.map_values(|e: (String, ErrorCause)| (e.0@, e.1.locale_view()))
}

/// The original messages of a list of entries, in order.
pub open spec fn messages_of(entries: Seq<EntryView>) -> Seq<Seq<char>> {
    entries.map_values(|e: EntryView| e.0)
}

/// Append-only list of (message, cause) pairs built during one validation pass.
pub struct ValidateErrorCollector(pub Vec<(String, ErrorCause)>);

impl View for ValidateErrorCollector {
    type V = Seq<EntryView>;

    open spec fn view(&self) -> Seq<EntryView> {
        entries_view(self.0@)
    }
}

impl ValidateErrorCollector {
    pub fn new() -> (r: ValidateErrorCollector)
        ensures
            r@ == Seq::<EntryView>::empty(),
    {
        ValidateErrorCollector(Vec::new())
    }

    pub fn is_empty(&self) -> (r: bool)
        ensures
            r == (self@.len() == 0),
    {
        self.0.len() == 0
    }

    pub fn push(&mut self, error: (String, ErrorCause))
        ensures
            final(self).0@ == old(self).0@.push(error),
            final(self)@ == old(self)@.push((error.0@, error.1.locale_view())),
    {
        self.0.push(error);
        assert(entries_view(self.0@) == entries_view(old(self).0@).push(
            (error.0@, error.1.locale_view()),
        ));
    }

    pub fn len(&self) -> (r: usize)
        ensures
            r == self@.len(),
    {
        self.0.len()
    }
}

/// Bytes of the messages one after the other, as the store's digest reads them.
pub open spec fn message_bytes(messages: Seq<Seq<char>>) -> Seq<u8>
    decreases messages.len(),
{
    if messages.len() == 0 {
        seq![]
    } else {
        message_bytes(messages.drop_last()) + vstd::utf8::encode_utf8(messages.last())
    }
}

/// BLAKE3 digest (32 bytes) of a byte string.
pub uninterp spec fn blake3_digest(data: Seq<u8>) -> Seq<u8>;

/// Relies on `blake3::hash`: the 32-byte BLAKE3 digest of `data`, a function
/// of the bytes alone.
#[verifier::external_body]
fn blake3_hash(data: &[u8]) -> (r: Vec<u8>)
    ensures
        r@ == blake3_digest(data@),
{
    blake3::hash(data).as_bytes().to_vec()
}

/// An immutable, shared snapshot of a collector's entries.
#[derive(Clone, Debug)]
pub struct ValidateErrorStore(pub Arc<Vec<(String, ErrorCause)>>);

impl View for ValidateErrorStore {
    type V = Seq<EntryView>;

    open spec fn view(&self) -> Seq<EntryView> {
        entries_view(self.0@)
    }
}

/// The digest that store equality compares: over the original messages only.
pub open spec fn store_digest(entries: Seq<EntryView>) -> Seq<u8> {
    blake3_digest(message_bytes(messages_of(entries)))
}

impl Default for ValidateErrorStore {
    fn default() -> (r: ValidateErrorStore)
        ensures
            r@ == Seq::<EntryView>::empty(),
    {
        let entries: Vec<(String, ErrorCause)> = Vec::new();
        assert(entries_view(entries@) =~= Seq::<EntryView>::empty());
        ValidateErrorStore(Arc::new(entries))
    }
}

impl ValidateErrorStore {
    /// Takes over the entries of a finished collector.
    pub fn from_collector(messages: ValidateErrorCollector) -> (r: ValidateErrorStore)
        ensures
            r@ == messages@,
    {
        ValidateErrorStore(Arc::new(messages.0))
    }

    /// The original, untranslated messages, in order.
    pub fn as_original_message_vec(&self) -> (r: Vec<String>)
        ensures
            r@.map_values(|s: String| s@) == messages_of(self@),
    {
        let entries: &Vec<(String, ErrorCause)> = &self.0;
        let mut out: Vec<String> = Vec::new();
        let mut i: usize = 0;
        while i < entries.len()
            invariant
                i <= entries.len(),
                *entries == *self.0,
                out@.map_values(|s: String| s@) == messages_of(entries_view(entries@.take(i as int))),
            decreases entries.len() - i,
        {
            let ghost before = out@;
            out.push(entries[i].0.clone());
            assert(out@.map_values(|s: String| s@) =~= before.map_values(|s: String| s@).push(
                entries@[i as int].0@,
            ));
            assert(entries_view(entries@.take(i + 1)) == entries_view(entries@.take(i as int)).push(
                (entries@[i as int].0@, entries@[i as int].1.locale_view()),
            ));
            i = i + 1;
        }
        assert(entries@.take(entries.len() as int) == entries@);
        out
    }

    /// The original messages as a shared list.
    pub fn as_original_message(&self) -> (r: Arc<Vec<String>>)
        ensures
            r@.map_values(|s: String| s@) == messages_of(self@),
    {
        Arc::new(self.as_original_message_vec())
    }

    /// A fresh collector holding the same messages, each cause given as its locale data.
    pub fn as_validate_error_collector(&self) -> (r: ValidateErrorCollector)
        ensures
            r@ == self@,
    {
        let entries: &Vec<(String, ErrorCause)> = &self.0;
        let mut out: Vec<(String, ErrorCause)> = Vec::new();
        let mut i: usize = 0;
        while i < entries.len()
            invariant
                i <= entries.len(),
                *entries == *self.0,
                entries_view(out@) == entries_view(entries@.take(i as int)),
            decreases entries.len() - i,
        {
            let data = entries[i].1.get_locale_data();
            out.push((entries[i].0.clone(), ErrorCause::Data(data)));
            assert(entries_view(entries@.take(i + 1)) == entries_view(entries@.take(i as int)).push(
                (entries@[i as int].0@, entries@[i as int].1.locale_view()),
            ));
            i = i + 1;
        }
        assert(entries@.take(entries.len() as int) == entries@);
        ValidateErrorCollector(out)
    }

    fn digest(&self) -> (r: Vec<u8>)
        ensures
            r@ == store_digest(self@),
    {
        let entries: &Vec<(String, ErrorCause)> = &self.0;
        let mut bytes: Vec<u8> = Vec::new();
        let mut i: usize = 0;
        while i < entries.len()
            invariant
                i <= entries.len(),
                *entries == *self.0,
                bytes@ == message_bytes(messages_of(entries_view(entries@.take(i as int)))),
            decreases entries.len() - i,
        {
            let b = entries[i].0.as_str().as_bytes();
            let mut j: usize = 0;
            let ghost before = bytes@;
            while j < b.len()
                invariant
                    j <= b.len(),
                    bytes@ == before + b@.take(j as int),
                decreases b.len() - j,
            {
                bytes.push(b[j]);
                assert(b@.take(j + 1) == b@.take(j as int).push(b@[j as int]));
                j = j + 1;
            }
            assert(b@.take(b.len() as int) == b@);
            let ghost next = messages_of(entries_view(entries@.take(i + 1)));
            assert(next.drop_last() == messages_of(entries_view(entries@.take(i as int))));
            assert(next.last() == entries@[i as int].0@);
            i = i + 1;
        }
        assert(entries@.take(entries.len() as int) == entries@);
        blake3_hash(bytes.as_slice())
    }
}

fn same_bytes(a: &Vec<u8>, b: &Vec<u8>) -> (r: bool)
    ensures
        r == (a@ == b@),
{
    if a.len() != b.len() {
        return false;
    }
    let mut i: usize = 0;
    while i < a.len()
        invariant
            i <= a.len(),
            a.len() == b.len(),
            forall|j: int| 0 <= j < i ==> a@[j] == b@[j],
        decreases a.len() - i,
    {
        if a[i] != b[i] {
            return false;
        }
        i = i + 1;
    }
    assert(a@ == b@);
    true
}

/// Two stores are equal when the digests of their messages are: causes are not compared.
impl PartialEq for ValidateErrorStore {
    fn eq(&self, other: &ValidateErrorStore) -> (r: bool) {
        let a = self.digest();
        let b = other.digest();
        same_bytes(&a, &b)
    }
}

impl vstd::std_specs::cmp::PartialEqSpecImpl for ValidateErrorStore {
    open spec fn obeys_eq_spec() -> bool {
        true
    }

    open spec fn eq_spec(&self, other: &ValidateErrorStore) -> bool {
        store_digest(self@) == store_digest(other@)
    }
}

} // verus!
