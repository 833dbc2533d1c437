//! The binary envelope of a push notification: a Protobuf message with a
//! topic (field 1), a content type (field 2), a dispatch type (field 3) and
//! a payload (field 4). `prost` reads the keys and the values; which field
//! goes where is decided here.

use vstd::prelude::*;

use crate::error::Error;

verus! {

/// `prost::DecodeError`, which is carried through as it comes.
#[verifier::external_type_specification]
#[verifier::external_body]
pub struct ExDecodeError(prost::DecodeError);

/// What `prost::encoding::decode_key` reads at the start of `buf`: the
/// field's number, the number of its wire type, and how many bytes the key
/// takes; nothing where it reports an error.
pub uninterp spec fn field_key(buf: Seq<u8>) -> Option<(u32, u8, nat)>;

/// What `prost::encoding::string::merge` reads at the start of `buf` for a
/// field whose wire type has the number `wire`: the string and how many
/// bytes it takes; nothing where it reports an error or no wire type has
/// that number.
pub uninterp spec fn string_field(wire: u8, buf: Seq<u8>) -> Option<(Seq<char>, nat)>;

/// What `prost::encoding::bytes::merge` reads at the start of `buf` for a
/// field whose wire type has the number `wire`: the bytes and how many
/// bytes they take; nothing where it reports an error or no wire type has
/// that number.
pub uninterp spec fn bytes_field(wire: u8, buf: Seq<u8>) -> Option<(Seq<u8>, nat)>;

/// What `prost::encoding::int32::merge` reads at the start of `buf` for a
/// field whose wire type has the number `wire`: the number and how many
/// bytes it takes; nothing where it reports an error or no wire type has
/// that number.
pub uninterp spec fn int32_field(wire: u8, buf: Seq<u8>) -> Option<(i32, nat)>;

/// How many bytes `prost::encoding::skip_field` passes over at the start of
/// `buf` for field `tag`, whose wire type has the number `wire`; nothing
/// where it reports an error or no wire type has that number.
pub uninterp spec fn skipped_field(wire: u8, tag: u32, buf: Seq<u8>) -> Option<nat>;

/// Calls `prost::encoding::decode_key` on `buf`. The contract names what it
/// read, and says that what comes back with it is `buf` without the key,
/// which takes at least one byte.
#[verifier::external_body]
fn read_key(buf: &[u8]) -> (r: Result<(u32, u8, &[u8]), prost::DecodeError>)
    ensures
        r is Ok <==> field_key(buf@) is Some,
        r matches Ok((tag, wire, rest)) ==> {
            &&& rest.len() < buf.len()
            &&& rest@ == buf@.skip(buf.len() - rest.len())
            &&& field_key(buf@) == Some((tag, wire, (buf.len() - rest.len()) as nat))
        },
{
    let mut rest = buf;
    let (tag, wire_type) = prost::encoding::decode_key(&mut rest)?;
    Ok((tag, wire_type as u8, rest))
}

/// Calls `prost::encoding::string::merge` on an empty string and `buf`, with
/// the wire type that `prost::encoding::WireType::try_from` makes of `wire`.
/// The contract names what it read and says that what comes back with it is
/// `buf` without the bytes read.
#[verifier::external_body]
fn read_string(wire: u8, buf: &[u8]) -> (r: Result<(String, &[u8]), prost::DecodeError>)
    ensures
        r is Ok <==> string_field(wire, buf@) is Some,
        r matches Ok((value, rest)) ==> {
            &&& rest.len() <= buf.len()
            &&& rest@ == buf@.skip(buf.len() - rest.len())
            &&& string_field(wire, buf@) == Some((value@, (buf.len() - rest.len()) as nat))
        },
{
    let mut rest = buf;
    let mut value = String::new();
    let wire_type = prost::encoding::WireType::try_from(u64::from(wire))?;
    prost::encoding::string::merge(wire_type, &mut value, &mut rest, Default::default())?;
    Ok((value, rest))
}

/// Calls `prost::encoding::bytes::merge` on an empty vector and `buf`, with
/// the wire type that `prost::encoding::WireType::try_from` makes of `wire`.
/// The contract names what it read and says that what comes back with it is
/// `buf` without the bytes read.
#[verifier::external_body]
fn read_bytes(wire: u8, buf: &[u8]) -> (r: Result<(Vec<u8>, &[u8]), prost::DecodeError>)
    ensures
        r is Ok <==> bytes_field(wire, buf@) is Some,
        r matches Ok((value, rest)) ==> {
            &&& rest.len() <= buf.len()
            &&& rest@ == buf@.skip(buf.len() - rest.len())
            &&& bytes_field(wire, buf@) == Some((value@, (buf.len() - rest.len()) as nat))
        },
{
    let mut rest = buf;
    let mut value: Vec<u8> = Vec::new();
    let wire_type = prost::encoding::WireType::try_from(u64::from(wire))?;
    prost::encoding::bytes::merge(wire_type, &mut value, &mut rest, Default::default())?;
    Ok((value, rest))
}

/// Calls `prost::encoding::int32::merge` on `buf`, with the wire type that
/// `prost::encoding::WireType::try_from` makes of `wire`. The contract names
/// what it read and says that what comes back with it is `buf` without the
/// bytes read.
#[verifier::external_body]
fn read_int32(wire: u8, buf: &[u8]) -> (r: Result<(i32, &[u8]), prost::DecodeError>)
    ensures
        r is Ok <==> int32_field(wire, buf@) is Some,
        r matches Ok((value, rest)) ==> {
            &&& rest.len() <= buf.len()
            &&& rest@ == buf@.skip(buf.len() - rest.len())
            &&& int32_field(wire, buf@) == Some((value, (buf.len() - rest.len()) as nat))
        },
{
    let mut rest = buf;
    let mut value: i32 = 0;
    let wire_type = prost::encoding::WireType::try_from(u64::from(wire))?;
    prost::encoding::int32::merge(wire_type, &mut value, &mut rest, Default::default())?;
    Ok((value, rest))
}

/// Calls `prost::encoding::skip_field` on `buf`, with the wire type that
/// `prost::encoding::WireType::try_from` makes of `wire`. The contract names
/// how much it passed over and says that what comes back is `buf` without
/// it.
#[verifier::external_body]
fn skip_unknown(wire: u8, tag: u32, buf: &[u8]) -> (r: Result<&[u8], prost::DecodeError>)
    ensures
        r is Ok <==> skipped_field(wire, tag, buf@) is Some,
        r matches Ok(rest) ==> {
            &&& rest.len() <= buf.len()
            &&& rest@ == buf@.skip(buf.len() - rest.len())
            &&& skipped_field(wire, tag, buf@) == Some((buf.len() - rest.len()) as nat)
        },
{
    let mut rest = buf;
    let wire_type = prost::encoding::WireType::try_from(u64::from(wire))?;
    prost::encoding::skip_field(wire_type, tag, &mut rest, Default::default())?;
    Ok(rest)
}

/// Calls `prost::DecodeError::push`, which adds the message and the field
/// in which decoding failed to what the error displays.
#[verifier::external_body]
fn located(error: prost::DecodeError, message: &'static str, field: &'static str) -> prost::DecodeError {
    let mut error = error;
    error.push(message, field);
    error
}

/// Displays a `prost::DecodeError`.
#[verifier::external_body]
fn error_message(error: &prost::DecodeError) -> String {
    error.to_string()
}

/// The envelope of a push notification.
#[derive(Debug, Clone, PartialEq, Eq)]
pub struct Notification {
    /// The topic that the payload belongs to
    pub topic: String,
    /// How the payload is encoded
    pub content_type: i32,
    /// How the notification was dispatched
    pub dispatch_type: i32,
    /// The payload
    pub data: Vec<u8>,
}

/// A [`Notification`] with its topic as a sequence of characters and its
/// payload as a sequence of bytes.
pub struct NotificationView {
    pub topic: Seq<char>,
    pub content_type: i32,
    pub dispatch_type: i32,
    pub data: Seq<u8>,
}

impl View for Notification {
    type V = NotificationView;

    open spec fn view(&self) -> NotificationView {
        NotificationView {
            topic: self.topic@,
            content_type: self.content_type,
            dispatch_type: self.dispatch_type,
            data: self.data@,
        }
    }
}

/// The envelope of which no field has been read.
pub open spec fn empty_notification() -> NotificationView {
    NotificationView { topic: Seq::empty(), content_type: 0, dispatch_type: 0, data: Seq::empty() }
}

/// The envelope after the value of field `tag` has been read at the start
/// of `buf`, and how many bytes the value takes. A field read again
/// replaces what was read before; an unknown field is passed over.
pub open spec fn with_field(so_far: NotificationView, tag: u32, wire: u8, buf: Seq<u8>) -> Option<
    (NotificationView, nat),
> {
    if tag == 1 {
        match string_field(wire, buf) {
            Some((topic, n)) => Some((NotificationView { topic, ..so_far }, n)),
            None => None,
        }
    } else if tag == 2 {
        match int32_field(wire, buf) {
            Some((content_type, n)) => Some((NotificationView { content_type, ..so_far }, n)),
            None => None,
        }
    } else if tag == 3 {
        match int32_field(wire, buf) {
            Some((dispatch_type, n)) => Some((NotificationView { dispatch_type, ..so_far }, n)),
            None => None,
        }
    } else if tag == 4 {
        match bytes_field(wire, buf) {
            Some((data, n)) => Some((NotificationView { data, ..so_far }, n)),
            None => None,
        }
    } else {
        match skipped_field(wire, tag, buf) {
            Some(n) => Some((so_far, n)),
            None => None,
        }
    }
}

/// The envelope after all the fields in `buf` have been read, one after the
/// other, until no byte is left.
pub open spec fn with_fields(so_far: NotificationView, buf: Seq<u8>) -> Option<NotificationView>
    decreases buf.len(),
{
    if buf.len() == 0 {
        Some(so_far)
    } else {
        match field_key(buf) {
            Some((tag, wire, n)) if 1 <= n <= buf.len() => match with_field(
                so_far,
                tag,
                wire,
                buf.skip(n as int),
            ) {
                Some((next, m)) if m <= buf.len() - n => with_fields(
                    next,
                    buf.skip(n as int).skip(m as int),
                ),
                _ => None,
            },
            _ => None,
        }
    }
}

/// The envelope that `data` encodes.
pub open spec fn notification_of(data: Seq<u8>) -> Option<NotificationView> {
    with_fields(empty_notification(), data)
}

impl Notification {
    /// Reads the value of field `tag` at the start of `buf` into the
    /// envelope and hands back the bytes after it.
    fn merge_field<'a>(&mut self, tag: u32, wire: u8, buf: &'a [u8]) -> (r: Result<
        &'a [u8],
        prost::DecodeError,
    >)
        ensures
            r is Ok <==> with_field(old(self)@, tag, wire, buf@) is Some,
            r matches Ok(rest) ==> {
                &&& rest.len() <= buf.len()
                &&& rest@ == buf@.skip(buf.len() - rest.len())
                &&& with_field(old(self)@, tag, wire, buf@) == Some(
                    (final(self)@, (buf.len() - rest.len()) as nat),
                )
            },
    {
        if tag == 1 {
            match read_string(wire, buf) {
                Ok((topic, rest)) => {
                    self.topic = topic;
                    Ok(rest)
                },
                Err(e) => Err(located(e, "Notification", "topic")),
            }
        } else if tag == 2 {
            match read_int32(wire, buf) {
                Ok((content_type, rest)) => {
                    self.content_type = content_type;
                    Ok(rest)
                },
                Err(e) => Err(located(e, "Notification", "content_type")),
            }
        } else if tag == 3 {
            match read_int32(wire, buf) {
                Ok((dispatch_type, rest)) => {
                    self.dispatch_type = dispatch_type;
                    Ok(rest)
                },
                Err(e) => Err(located(e, "Notification", "dispatch_type")),
            }
        } else if tag == 4 {
            match read_bytes(wire, buf) {
                Ok((data, rest)) => {
                    self.data = data;
                    Ok(rest)
                },
                Err(e) => Err(located(e, "Notification", "data")),
            }
        } else {
            skip_unknown(wire, tag, buf)
        }
    }

    /// Reads all the fields in `data` into the envelope, one after the
    /// other.
    fn merge(&mut self, data: &[u8]) -> (r: Result<(), prost::DecodeError>)
        ensures
            r is Ok <==> with_fields(old(self)@, data@) is Some,
            r is Ok ==> with_fields(old(self)@, data@) == Some(final(self)@),
    {
        let mut rest = data;
        while rest.len() > 0
            invariant
                with_fields(old(self)@, data@) == with_fields(self@, rest@),
            decreases rest.len(),
        {
            let (tag, wire, after_key) = match read_key(rest) {
                Ok(key) => key,
                Err(e) => {
                    return Err(e);
                },
            };
            let after_value = match self.merge_field(tag, wire, after_key) {
                Ok(after_value) => after_value,
                Err(e) => {
                    return Err(e);
                },
            };
            rest = after_value;
        }
        Ok(())
    }

    /// Decodes an envelope from its bytes: all of them are read. Bytes that
    /// are no envelope give the error of a Protobuf message that cannot be
    /// decoded, with the decoder's message.
    pub fn decode(data: &[u8]) -> (r: Result<Notification, Error>)
        ensures
            match r {
                Ok(notification) => notification_of(data@) == Some(notification@),
                Err(e) => notification_of(data@) is None && e is DecodeProtobuf,
            },
    {
        let mut message = Notification {
            topic: String::new(),
            content_type: 0,
            dispatch_type: 0,
            data: Vec::new(),
        };
        match message.merge(data) {
            Ok(()) => Ok(message),
            Err(e) => Err(Error::DecodeProtobuf(error_message(&e))),
        }
    }
}

} // verus!
