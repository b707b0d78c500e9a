//! The native methods of the `QName` class of the second script dialect.
//!
//! A qualified name pairs a namespace with a local name. Either can be left
//! open: a name without a namespace matches in any namespace, and a name
//! without a local name matches any name; both print as `*`.

use vstd::prelude::*;
use vstd::string::*;

verus! {

/// A qualified name.
pub struct QName {
    /// The URI of the namespace, or `None` for any namespace.
    pub uri: Option<String>,
    /// The local name, or `None` for any name.
    pub local_name: Option<String>,
}

/// A qualified name, each string seen as its characters.
pub struct QNameView {
    pub uri: Option<Seq<char>>,
    pub local_name: Option<Seq<char>>,
}

impl View for QName {
    type V = QNameView;

    open spec fn view(&self) -> QNameView {
        QNameView {
            uri: match self.uri {
                Some(uri) => Some(uri@),
                None => None,
            },
            local_name: match self.local_name {
                Some(name) => Some(name@),
                None => None,
            },
        }
    }
}

/// A script value, as far as the `QName` class looks at it.
pub enum Value {
    Undefined,
    Null,
    /// A string.
    String(String),
    /// A `QName` object.
    QName(QName),
    /// A `Namespace` object, by its URI.
    Namespace(String),
    /// Any other value, by the string that the script engine coerces it to,
    /// or `None` where coercing it throws.
    Other(Option<String>),
}

/// Raised where script threw while a value was coerced to a string.
#[derive(Clone, Copy, Debug, PartialEq, Eq, Structural)]
pub struct ScriptError;

/// The text of a local name: the name, or `*` for any name.
pub open spec fn local_text(name: QNameView) -> Seq<char> {
    match name.local_name {
        Some(local) => local,
        None => seq!['*'],
    }
}

/// The text of a qualified name: the local name alone in the namespace
/// without a URI, else the URI, or `*` for any namespace, then `::` and the
/// local name.
pub open spec fn qualified_text(name: QNameView) -> Seq<char> {
    match name.uri {
        None => seq!['*', ':', ':'] + local_text(name),
        Some(uri) => if uri.len() == 0 {
            local_text(name)
        } else {
            uri + seq![':', ':'] + local_text(name)
        },
    }
}

/// The string that a value coerces to, or `None` where coercing throws.
pub open spec fn coerced(value: Value) -> Option<Seq<char>> {
    match value {
        Value::Undefined => Some("undefined"@),
        Value::Null => Some("null"@),
        Value::String(s) => Some(s@),
        Value::QName(name) => Some(qualified_text(name@)),
        Value::Namespace(uri) => Some(uri@),
        Value::Other(Some(s)) => Some(s@),
        Value::Other(None) => None,
    }
}

/// The namespace that the first argument of the two-argument constructor
/// asks for: a namespace object gives its URI, undefined and null give
/// nothing, and any other value gives the string it coerces to. The outer
/// `None` stands for a coercion that throws, the inner for no namespace.
pub open spec fn namespace_argument(value: Value) -> Option<Option<Seq<char>>> {
    match value {
        Value::Namespace(uri) => Some(Some(uri@)),
        Value::Undefined => Some(None),
        Value::Null => Some(None),
        other => match coerced(other) {
            Some(s) => Some(Some(s)),
            None => None,
        },
    }
}

/// The local name that the second argument of the two-argument constructor
/// asks for: a `QName` object gives its local name, any other value the
/// string it coerces to.
pub open spec fn local_argument(value: Value) -> Option<Seq<char>> {
    match value {
        Value::QName(name) => Some(local_text(name@)),
        other => coerced(other),
    }
}

/// The name that the constructor leaves in `this`, or `None` where a
/// coercion throws.
///
/// With a second argument, the first names the namespace and the second the
/// local name; a namespace that is not given is left as it was. Without
/// one, a `QName` object is copied, the string `*` leaves the name open,
/// and any other string becomes the local name in the public namespace,
/// whose URI is empty.
pub open spec fn constructed(this: QNameView, first: Value, second: Value) -> Option<QNameView> {
    if !(second is Undefined) {
        match (namespace_argument(first), local_argument(second)) {
            (Some(namespace), Some(local)) => Some(
                QNameView {
                    uri: if namespace.is_some() {
                        namespace
                    } else {
                        this.uri
                    },
                    local_name: Some(local),
                },
            ),
            _ => None,
        }
    } else {
        match first {
            Value::QName(name) => Some(name@),
            other => match coerced(other) {
                None => None,
                Some(local) => if local == seq!['*'] {
                    Some(this)
                } else {
                    Some(QNameView { uri: Some(Seq::<char>::empty()), local_name: Some(local) })
                },
            },
        }
    }
}

impl QName {
    /// The name that matches any name in any namespace.
    pub fn any() -> (name: QName)
        ensures
            name@ == (QNameView { uri: None, local_name: None }),
    {
        QName { uri: None, local_name: None }
    }

    /// A copy of the name.
    pub fn duplicate(&self) -> (name: QName)
        ensures
            name@ == self@,
    {
        QName {
            uri: match &self.uri {
                Some(uri) => Some(uri.clone()),
                None => None,
            },
            local_name: match &self.local_name {
                Some(local) => Some(local.clone()),
                None => None,
            },
        }
    }

    /// The text of the local name.
    pub fn local_name_text(&self) -> (text: String)
        ensures
            text@ == local_text(self@),
    {
        match &self.local_name {
            Some(local) => local.clone(),
            None => {
                proof {
                    reveal_strlit("*");
                }
                assert("*"@ =~= seq!['*']);
                String::from_str("*")
            },
        }
    }

    /// The text of the qualified name.
    pub fn as_uri(&self) -> (text: String)
        ensures
            text@ == qualified_text(self@),
    {
        proof {
            reveal_strlit("*::");
            reveal_strlit("::");
        }
        assert("*::"@ =~= seq!['*', ':', ':']);
        assert("::"@ =~= seq![':', ':']);
        let local = self.local_name_text();
        match &self.uri {
            None => String::from_str("*::").concat(local.as_str()),
            Some(uri) => {
                if uri.as_str().unicode_len() == 0 {
                    local
                } else {
                    uri.clone().concat("::").concat(local.as_str())
                }
            },
        }
    }
}

/// Coerces a value to a string, as the script engine does.
pub fn coerce_to_string(value: &Value) -> (r: Result<String, ScriptError>)
    ensures
        match coerced(*value) {
            Some(s) => r is Ok && r->Ok_0@ == s,
            None => r is Err,
        },
{
    match value {
        Value::Undefined => Ok(String::from_str("undefined")),
        Value::Null => Ok(String::from_str("null")),
        Value::String(s) => Ok(s.clone()),
        Value::QName(name) => Ok(name.as_uri()),
        Value::Namespace(uri) => Ok(uri.clone()),
        Value::Other(Some(s)) => Ok(s.clone()),
        Value::Other(None) => Err(ScriptError),
    }
}

/// Implements `QName`'s `init` method, which is called from the constructor.
///
/// The constructor always passes two arguments, the second undefined where
/// script gave only one. On success the name is in `this` and the call
/// yields undefined; where a coercion throws, `this` is as it was.
pub fn init(this: &mut QName, args: &[Value]) -> (r: Result<Value, ScriptError>)
    requires
        args@.len() >= 2,
    ensures
        match constructed(old(this)@, args@[0], args@[1]) {
            Some(name) => r is Ok && r->Ok_0 is Undefined && final(this)@ == name,
            None => r is Err && final(this)@ == old(this)@,
        },
{
    proof {
        reveal_strlit("*");
    }
    assert("*"@ =~= seq!['*']);
    let second_given = match &args[1] {
        Value::Undefined => false,
        _ => true,
    };
    if second_given {
        let namespace: Option<String> = match &args[0] {
            Value::Namespace(uri) => Some(uri.clone()),
            Value::Undefined => None,
            Value::Null => None,
            other => match coerce_to_string(other) {
                Ok(s) => Some(s),
                Err(e) => {
                    return Err(e);
                },
            },
        };
        let local: String = match &args[1] {
            Value::QName(name) => name.local_name_text(),
            other => match coerce_to_string(other) {
                Ok(s) => s,
                Err(e) => {
                    return Err(e);
                },
            },
        };
        this.local_name = Some(local);
        if namespace.is_some() {
            this.uri = namespace;
        }
        Ok(Value::Undefined)
    } else {
        match &args[0] {
            Value::QName(name) => {
                *this = name.duplicate();
                Ok(Value::Undefined)
            },
            other => {
                let local = match coerce_to_string(other) {
                    Ok(s) => s,
                    Err(e) => {
                        return Err(e);
                    },
                };
                if local != String::from_str("*") {
                    this.local_name = Some(local);
                    this.uri = Some(String::new());
                }
                Ok(Value::Undefined)
            },
        }
    }
}

/// Implements `QName.localName`'s getter: the local name of a `QName`
/// object, and undefined for anything else.
pub fn get_local_name(this: Option<&Value>) -> (r: Value)
    ensures
        match this {
            Some(Value::QName(name)) => r is String && r->String_0@ == local_text(name@),
            _ => r is Undefined,
        },
{
    match this {
        Some(Value::QName(name)) => Value::String(name.local_name_text()),
        _ => Value::Undefined,
    }
}

/// Implements `QName.uri`'s getter: the URI of the namespace of a `QName`
/// object, null where the name is open to any namespace, and undefined for
/// anything that is no `QName`.
pub fn get_uri(this: Option<&Value>) -> (r: Value)
    ensures
        match this {
            Some(Value::QName(name)) => match name@.uri {
                Some(uri) => r is String && r->String_0@ == uri,
                None => r is Null,
            },
            _ => r is Undefined,
        },
{
    match this {
        Some(Value::QName(name)) => match &name.uri {
            Some(uri) => Value::String(uri.clone()),
            None => Value::Null,
        },
        _ => Value::Undefined,
    }
}

/// Implements `QName.prototype.toString`: the text of the qualified name of
/// a `QName` object, and undefined for anything else.
pub fn to_string(this: Option<&Value>) -> (r: Value)
    ensures
        match this {
            Some(Value::QName(name)) => r is String && r->String_0@ == qualified_text(name@),
            _ => r is Undefined,
        },
{
    match this {
        Some(Value::QName(name)) => Value::String(name.as_uri()),
        _ => Value::Undefined,
    }
}

} // verus!
