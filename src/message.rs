//! Messages carried on streams.
use vstd::prelude::*;

use crate::timestamp::{Timestamp, TimestampModel};

verus! {

/// A stream message: timestamped data, or a watermark promising that no more
/// data at or below its timestamp follows on the same stream.
#[derive(Debug, Clone)]
pub enum Message<T> {
    TimestampedData(Timestamp, T),
    Watermark(Timestamp),
}

impl<T> Message<T> {
    pub open spec fn timestamp_spec(&self) -> TimestampModel {
        match self {
            Message::TimestampedData(t, _) => t@,
            Message::Watermark(t) => t@,
        }
    }

    pub open spec fn is_watermark_spec(&self) -> bool {
        self is Watermark
    }

    pub fn new_message(timestamp: Timestamp, data: T) -> (r: Message<T>)
        ensures
            r == Message::TimestampedData(timestamp, data),
    {
        Message::TimestampedData(timestamp, data)
    }

    pub fn new_watermark(timestamp: Timestamp) -> (r: Message<T>)
        ensures
            r == Message::<T>::Watermark(timestamp),
    {
        Message::Watermark(timestamp)
    }

    pub fn timestamp(&self) -> (r: &Timestamp)
        ensures
            r@ == self.timestamp_spec(),
    {
        match self {
            Message::TimestampedData(t, _) => t,
            Message::Watermark(t) => t,
        }
    }

    pub fn is_watermark(&self) -> (r: bool)
        ensures
            r == self.is_watermark_spec(),
    {
        matches!(self, Message::Watermark(_))
    }

    /// The payload of a data message; `None` for a watermark.
    pub fn data(&self) -> (r: Option<&T>)
        ensures
            match self {
                Message::TimestampedData(_, d) => r == Some(d),
                Message::Watermark(_) => r is None,
            },
    {
        match self {
            Message::TimestampedData(_, d) => Some(d),
            Message::Watermark(_) => None,
        }
    }
}

} // verus!
