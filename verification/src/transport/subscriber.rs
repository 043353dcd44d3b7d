//! Subscriber side: reading the frames of a received message.
use vstd::prelude::*;
use vstd::slice::slice_to_vec;
use vstd::string::*;
use vstd::utf8::{decode_utf8, encode_utf8, encode_utf8_decode_utf8, encode_utf8_valid_utf8, valid_utf8};
use crate::error::{Error, Result};

verus! {

/// Metadata about a received message.
#[derive(Debug, Clone)]
pub struct MessageMeta {
    /// Topic name.
    pub topic: String,
    /// Sender address.
    pub sender: String,
    /// Message type name (e.g., "gz.msgs.Pose_V").
    pub msg_type: String,
}

/// The text that `String::from_utf8_lossy` makes of `bytes`.
pub uninterp spec fn lossy_text(bytes: Seq<u8>) -> Seq<char>;

/// Calls `String::from_utf8_lossy`: the text of `bytes`, with each invalid UTF-8
/// sequence replaced by U+FFFD. Stated: the result is `lossy_text` of the bytes,
/// and valid UTF-8 reads as its decoding; the replacement rule is not stated.
#[verifier::external_body]
pub fn utf8_lossy(bytes: &[u8]) -> (r: String)
    ensures
        r@ == lossy_text(bytes@),
        valid_utf8(bytes@) ==> r@ == decode_utf8(bytes@),
{
    String::from_utf8_lossy(bytes).into_owned()
}

/// A subscriber needs at least one publisher endpoint.
pub fn check_endpoints(endpoints: &Vec<String>, topic: &str) -> (r: Result<()>)
    ensures
        match r {
            Ok(()) => endpoints@.len() > 0,
            Err(e) => endpoints@.len() == 0 && (e matches Error::NoPublishers(t) && t@ == topic@),
        },
{
    if endpoints.len() == 0 {
        return Err(Error::NoPublishers(topic.to_owned()));
    }
    Ok(())
}

/// Read a received multipart message: frame 0 the topic, frame 1 the sender,
/// frame 2 the data, frame 3 the message type (further frames are ignored).
/// `None` when there are fewer than four frames.
pub fn parse_message_frames(frames: &Vec<Vec<u8>>) -> (r: Option<(MessageMeta, Vec<u8>)>)
    ensures
        match r {
            Some((meta, data)) => {
                &&& frames@.len() >= 4
                &&& meta.topic@ == lossy_text(frames@[0]@)
                &&& meta.sender@ == lossy_text(frames@[1]@)
                &&& data@ == frames@[2]@
                &&& meta.msg_type@ == lossy_text(frames@[3]@)
                &&& valid_utf8(frames@[0]@) ==> meta.topic@ == decode_utf8(frames@[0]@)
                &&& valid_utf8(frames@[1]@) ==> meta.sender@ == decode_utf8(frames@[1]@)
                &&& valid_utf8(frames@[3]@) ==> meta.msg_type@ == decode_utf8(frames@[3]@)
            },
            None => frames@.len() < 4,
        },
{
    if frames.len() < 4 {
        return None;
    }
    let topic = utf8_lossy(frames[0].as_slice());
    let sender = utf8_lossy(frames[1].as_slice());
    let data = slice_to_vec(frames[2].as_slice());
    let msg_type = utf8_lossy(frames[3].as_slice());
    Some((MessageMeta { topic, sender, msg_type }, data))
}


/// The text frames a publisher sends are read back by a subscriber as the same text:
/// the bytes of a text are valid UTF-8 and decode to that text.
pub proof fn law_text_frames_read_back(topic: Seq<char>, sender: Seq<char>, msg_type: Seq<char>)
    ensures
        valid_utf8(encode_utf8(topic)) && decode_utf8(encode_utf8(topic)) == topic,
        valid_utf8(encode_utf8(sender)) && decode_utf8(encode_utf8(sender)) == sender,
        valid_utf8(encode_utf8(msg_type)) && decode_utf8(encode_utf8(msg_type)) == msg_type,
{
    encode_utf8_valid_utf8(topic);
    encode_utf8_decode_utf8(topic);
    encode_utf8_valid_utf8(sender);
    encode_utf8_decode_utf8(sender);
    encode_utf8_valid_utf8(msg_type);
    encode_utf8_decode_utf8(msg_type);
}

} // verus!
