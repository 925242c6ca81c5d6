//! Plain values that describe a span: attributes and status.

use vstd::prelude::*;

verus! {

/// The value of an attribute.
#[derive(Debug, Clone, PartialEq, Eq)]
pub enum AttributeValue {
    Text(String),
    Flag(bool),
}

/// Mathematical model of an [`AttributeValue`].
pub enum AttributeValueView {
    Text(Seq<char>),
    Flag(bool),
}

impl View for AttributeValue {
    type V = AttributeValueView;

    open spec fn view(&self) -> AttributeValueView {
        match self {
            AttributeValue::Text(text) => AttributeValueView::Text(text@),
            AttributeValue::Flag(flag) => AttributeValueView::Flag(*flag),
        }
    }
}

/// A key with its value.
#[derive(Debug, Clone, PartialEq, Eq)]
pub struct Attribute {
    pub key: String,
    pub value: AttributeValue,
}

/// Mathematical model of an [`Attribute`].
pub struct AttributeView {
    pub key: Seq<char>,
    pub value: AttributeValueView,
}

impl View for Attribute {
    type V = AttributeView;

    open spec fn view(&self) -> AttributeView {
        AttributeView { key: self.key@, value: self.value@ }
    }
}

impl AttributeValue {
    /// A copy of the value.
    pub fn duplicate(&self) -> (copy: AttributeValue)
        ensures
            copy == *self,
    {
        match self {
            AttributeValue::Text(text) => AttributeValue::Text(text.clone()),
            AttributeValue::Flag(flag) => AttributeValue::Flag(*flag),
        }
    }
}

impl Attribute {
    /// An attribute whose value is a text.
    pub fn text(key: &str, value: &str) -> (attribute: Attribute)
        ensures
            attribute@ == (AttributeView { key: key@, value: AttributeValueView::Text(value@) }),
    {
        Attribute { key: key.to_string(), value: AttributeValue::Text(value.to_string()) }
    }

    /// An attribute whose value is a flag.
    pub fn flag(key: &str, value: bool) -> (attribute: Attribute)
        ensures
            attribute@ == (AttributeView { key: key@, value: AttributeValueView::Flag(value) }),
    {
        Attribute { key: key.to_string(), value: AttributeValue::Flag(value) }
    }
}

/// The status of a span.
#[derive(Debug, Clone, PartialEq, Eq)]
pub enum SpanStatus {
    /// No status was set.
    Unset,
    /// The operation succeeded.
    Success,
    /// The operation failed, for the reason given.
    Error { description: String },
}

/// Mathematical model of a [`SpanStatus`].
pub enum SpanStatusView {
    Unset,
    Success,
    Error { description: Seq<char> },
}

impl View for SpanStatus {
    type V = SpanStatusView;

    open spec fn view(&self) -> SpanStatusView {
        match self {
            SpanStatus::Unset => SpanStatusView::Unset,
            SpanStatus::Success => SpanStatusView::Success,
            SpanStatus::Error { description } => SpanStatusView::Error {
                description: description@,
            },
        }
    }
}

impl SpanStatus {
    /// A copy of the status.
    pub fn duplicate(&self) -> (copy: SpanStatus)
        ensures
            copy == *self,
    {
        match self {
            SpanStatus::Unset => SpanStatus::Unset,
            SpanStatus::Success => SpanStatus::Success,
            SpanStatus::Error { description } => SpanStatus::Error {
                description: description.clone(),
            },
        }
    }
}

} // verus!
