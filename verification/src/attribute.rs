//! The store's own form of data: values tagged with their type, and items
//! that map attribute names to such values.

use crate::errors::{ChatError, ChatErrorView, ErrorKind, internal_text, missing_view};
use crate::text::{join3, same_text};
use vstd::prelude::*;
use vstd::string::*;

verus! {

/// A value as the store holds it. Identifiers are numbers to the store, all
/// other text is a string; a value of any other type is never read.
#[derive(Debug)]
pub enum AttributeValue {
    /// Text, tagged as a string.
    S(String),
    /// Text, tagged as a number.
    N(String),
    /// A value of a type that this service neither writes nor reads.
    Other,
}

/// An `AttributeValue` as a plain value.
pub enum Value {
    S(Seq<char>),
    N(Seq<char>),
    Other,
}

impl View for AttributeValue {
    type V = Value;

    open spec fn view(&self) -> Value {
        match self {
            AttributeValue::S(text) => Value::S(text@),
            AttributeValue::N(text) => Value::N(text@),
            AttributeValue::Other => Value::Other,
        }
    }
}

impl DeepView for AttributeValue {
    type V = Value;

    open spec fn deep_view(&self) -> Value {
        self@
    }
}

/// How a value is shown in a diagnostic: its tag, and its text in brackets.
pub open spec fn shown(value: Value) -> Seq<char> {
    match value {
        Value::S(text) => "S("@ + text + ")"@,
        Value::N(text) => "N("@ + text + ")"@,
        Value::Other => "Other"@,
    }
}

/// The error of a value that is not of the type that was asked for.
pub open spec fn mismatch_view(value: Value) -> ChatErrorView {
    ChatErrorView {
        kind: ErrorKind::TypeMismatch,
        debug: Some("Error unwrapping AttributeValue "@ + shown(value)),
        display: internal_text(),
    }
}

impl AttributeValue {
    /// A copy of this value.
    pub fn duplicate(&self) -> (r: AttributeValue)
        ensures
            r@ == self@,
    {
        match self {
            AttributeValue::S(text) => AttributeValue::S(text.clone()),
            AttributeValue::N(text) => AttributeValue::N(text.clone()),
            AttributeValue::Other => AttributeValue::Other,
        }
    }

    /// Whether two values have the same tag and the same text.
    pub fn same(&self, other: &AttributeValue) -> (r: bool)
        ensures
            r == (self@ == other@),
    {
        match (self, other) {
            (AttributeValue::S(a), AttributeValue::S(b)) => same_text(a.as_str(), b.as_str()),
            (AttributeValue::N(a), AttributeValue::N(b)) => same_text(a.as_str(), b.as_str()),
            (AttributeValue::Other, AttributeValue::Other) => true,
            _ => false,
        }
    }

    /// The error of this value where another type was asked for.
    pub fn mismatch(&self) -> (e: ChatError)
        ensures
            e@ == mismatch_view(self@),
    {
        let mut debug = String::from_str("Error unwrapping AttributeValue ");
        match self {
            AttributeValue::S(text) => {
                debug.append(join3("S(", text.as_str(), ")").as_str());
            },
            AttributeValue::N(text) => {
                debug.append(join3("N(", text.as_str(), ")").as_str());
            },
            AttributeValue::Other => {
                debug.append("Other");
            },
        }
        ChatError {
            kind: ErrorKind::TypeMismatch,
            debug: Some(debug),
            display: String::from_str("Internal server error"),
        }
    }

    /// The text of a string; a value of another type is a mismatch.
    pub fn as_s(&self) -> (r: Result<&String, ChatError>)
        ensures
            match r {
                Ok(text) => self@ == Value::S(text@),
                Err(e) => !(self@ is S) && e@ == mismatch_view(self@),
            },
    {
        match self {
            AttributeValue::S(text) => Ok(text),
            _ => Err(self.mismatch()),
        }
    }

    /// The text of a number; a value of another type is a mismatch.
    pub fn as_n(&self) -> (r: Result<&String, ChatError>)
        ensures
            match r {
                Ok(text) => self@ == Value::N(text@),
                Err(e) => !(self@ is N) && e@ == mismatch_view(self@),
            },
    {
        match self {
            AttributeValue::N(text) => Ok(text),
            _ => Err(self.mismatch()),
        }
    }
}

/// One attribute of an item: a name and the value under it.
#[derive(Debug)]
pub struct Attribute {
    pub name: String,
    pub value: AttributeValue,
}

/// The map that a run of attributes stands for: each name with the value
/// that was put under it last.
pub open spec fn as_map(attributes: Seq<Attribute>) -> Map<Seq<char>, Value>
    decreases attributes.len(),
{
    if attributes.len() == 0 {
        Map::empty()
    } else {
        as_map(attributes.drop_last()).insert(attributes.last().name@, attributes.last().value@)
    }
}

/// An item of the store: attribute names with their values. To put a value
/// under a name that the item already has replaces the earlier value.
#[derive(Debug)]
pub struct Item {
    /// The attributes in the order in which they were put; of two with one
    /// name the later counts.
    pub attributes: Vec<Attribute>,
}

impl View for Item {
    type V = Map<Seq<char>, Value>;

    open spec fn view(&self) -> Map<Seq<char>, Value> {
        as_map(self.attributes@)
    }
}

impl DeepView for Item {
    type V = Map<Seq<char>, Value>;

    open spec fn deep_view(&self) -> Map<Seq<char>, Value> {
        self@
    }
}

/// What reading the string `key` of an item gives.
pub open spec fn read_s(item: Map<Seq<char>, Value>, source: Seq<char>, key: Seq<char>) -> Result<
    Seq<char>,
    ChatErrorView,
> {
    if !item.contains_key(key) {
        Err(missing_view(source, key))
    } else {
        match item[key] {
            Value::S(text) => Ok(text),
            other => Err(mismatch_view(other)),
        }
    }
}

/// What reading the number `key` of an item gives.
pub open spec fn read_n(item: Map<Seq<char>, Value>, source: Seq<char>, key: Seq<char>) -> Result<
    Seq<char>,
    ChatErrorView,
> {
    if !item.contains_key(key) {
        Err(missing_view(source, key))
    } else {
        match item[key] {
            Value::N(text) => Ok(text),
            other => Err(mismatch_view(other)),
        }
    }
}

impl Item {
    /// An item without attributes.
    pub fn new() -> (item: Item)
        ensures
            item@ == Map::<Seq<char>, Value>::empty(),
    {
        Item { attributes: Vec::new() }
    }

    /// Puts `value` under `name`, in place of what was there.
    pub fn insert(&mut self, name: &str, value: AttributeValue)
        ensures
            final(self)@ == old(self)@.insert(name@, value@),
    {
        let ghost before = self.attributes@;
        self.attributes.push(Attribute { name: String::from_str(name), value });
        assert(self.attributes@.drop_last() =~= before);
    }

    /// The value under `name`, if the item has one.
    pub fn get(&self, name: &str) -> (r: Option<&AttributeValue>)
        ensures
            match r {
                Some(value) => self@.contains_key(name@) && self@[name@] == value@,
                None => !self@.contains_key(name@),
            },
    {
        let mut i: usize = self.attributes.len();
        proof {
            assert(self.attributes@.take(i as int) =~= self.attributes@);
        }
        while i > 0
            invariant
                0 <= i <= self.attributes.len(),
                self@.contains_key(name@) == as_map(self.attributes@.take(i as int)).contains_key(
                    name@,
                ),
                self@.contains_key(name@) ==> self@[name@] == as_map(
                    self.attributes@.take(i as int),
                )[name@],
            decreases i,
        {
            proof {
                assert(self.attributes@.take(i as int).drop_last() =~= self.attributes@.take(i - 1));
            }
            if same_text(self.attributes[i - 1].name.as_str(), name) {
                return Some(&self.attributes[i - 1].value);
            }
            i -= 1;
        }
        None
    }

    /// A copy of this item.
    pub fn duplicate(&self) -> (r: Item)
        ensures
            r@ == self@,
    {
        let mut attributes: Vec<Attribute> = Vec::new();
        let mut i: usize = 0;
        while i < self.attributes.len()
            invariant
                0 <= i <= self.attributes.len(),
                as_map(attributes@) == as_map(self.attributes@.take(i as int)),
            decreases self.attributes.len() - i,
        {
            let ghost before = attributes@;
            let one = &self.attributes[i];
            attributes.push(Attribute { name: one.name.clone(), value: one.value.duplicate() });
            proof {
                assert(attributes@.drop_last() =~= before);
                assert(self.attributes@.take(i + 1).drop_last() =~= self.attributes@.take(i as int));
            }
            i += 1;
        }
        proof {
            assert(self.attributes@.take(i as int) =~= self.attributes@);
        }
        Item { attributes }
    }

    /// The string under `key`. `source` names the item in the diagnostic of
    /// an item that has no such attribute.
    pub fn s(&self, source: &str, key: &str) -> (r: Result<String, ChatError>)
        ensures
            match r {
                Ok(text) => read_s(self@, source@, key@) == Ok::<Seq<char>, ChatErrorView>(text@),
                Err(e) => read_s(self@, source@, key@) == Err::<Seq<char>, ChatErrorView>(e@),
            },
    {
        match self.get(key) {
            None => Err(ChatError::missing(source, key)),
            Some(value) => match value.as_s() {
                Ok(text) => Ok(text.clone()),
                Err(e) => Err(e),
            },
        }
    }

    /// The number under `key`, as text. `source` names the item in the
    /// diagnostic of an item that has no such attribute.
    pub fn n(&self, source: &str, key: &str) -> (r: Result<String, ChatError>)
        ensures
            match r {
                Ok(text) => read_n(self@, source@, key@) == Ok::<Seq<char>, ChatErrorView>(text@),
                Err(e) => read_n(self@, source@, key@) == Err::<Seq<char>, ChatErrorView>(e@),
            },
    {
        match self.get(key) {
            None => Err(ChatError::missing(source, key)),
            Some(value) => match value.as_n() {
                Ok(text) => Ok(text.clone()),
                Err(e) => Err(e),
            },
        }
    }
}

} // verus!
