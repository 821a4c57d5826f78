use vstd::prelude::*;
use vstd::string::*;
use crate::codec::{channels_from_flag, channels_spec, Channels};
use crate::error::{with_cause_spec, ErrIntoException, JavaException};
use crate::registry::{Registry, NO_HANDLE};

verus! {

/// The longest buffer the codec engine accepts in one call.
pub const MAX_BUFFER_LEN: usize = 0x7fff_ffff;

/// A decoder engine together with the configuration that sizes its output.
pub struct DecoderContainer<D> {
    pub decoder: D,
    pub channels: Channels,
    /// The most samples per channel that one decode call produces.
    pub frame_size: i32,
}

impl<D> DecoderContainer<D> {
    /// Samples in a full output frame: `frame_size` for each channel, a
    /// negative frame size counting as none, and never above what the engine
    /// accepts in one call.
    pub open spec fn capacity_spec(&self) -> int {
        let full = if self.frame_size < 0 {
            0
        } else {
            self.frame_size as int
        } * self.channels.count_spec();
        if full > MAX_BUFFER_LEN {
            MAX_BUFFER_LEN as int
        } else {
            full
        }
    }

    /// The samples that remain of a full frame after the engine reports
    /// `per_channel` samples for each channel.
    pub open spec fn decoded_len_spec(&self, per_channel: int) -> int {
        let produced = per_channel * self.channels.count_spec();
        if produced > self.capacity_spec() {
            self.capacity_spec()
        } else {
            produced
        }
    }

    pub fn capacity(&self) -> (r: usize)
        ensures
            r == self.capacity_spec(),
    {
        let frames: usize = if self.frame_size < 0 {
            0
        } else {
            self.frame_size as usize
        };
        let ch = self.channels.count();
        if frames > MAX_BUFFER_LEN / ch {
            MAX_BUFFER_LEN
        } else {
            frames * ch
        }
    }

    /// A zeroed buffer of a full frame, for the engine to decode into.
    pub fn output_buffer(&self) -> (r: Vec<i16>)
        ensures
            r@.len() == self.capacity_spec(),
            forall|i: int| 0 <= i < r@.len() ==> r@[i] == 0,
    {
        vec![0i16; self.capacity()]
    }

    /// How many samples of the buffer the engine filled, given the samples
    /// per channel that it reported.
    pub fn decoded_len(&self, per_channel: usize) -> (r: usize)
        ensures
            r == self.decoded_len_spec(per_channel as int),
    {
        let capacity = self.capacity();
        let ch = self.channels.count();
        if per_channel > capacity / ch {
            capacity
        } else {
            per_channel * ch
        }
    }

    /// Completes a decode call: keeps what the engine produced of the full
    /// frame `buffer`, or reports the engine's fault as a codec error.
    pub fn finish_decode(&self, buffer: Vec<i16>, engine: Result<usize, String>) -> (r: Result<
        Vec<i16>,
        JavaException,
    >)
        requires
            buffer@.len() == self.capacity_spec(),
        ensures
            r is Ok <==> engine is Ok,
            engine matches Ok(n) ==> r matches Ok(v) && v@ == buffer@.subrange(
                0,
                self.decoded_len_spec(n as int),
            ),
            engine matches Err(cause) ==> r matches Err(e) && e.is_opus() && e.message@
                == with_cause_spec("Failed to decode audio"@, cause@),
            r matches Ok(v) ==> v@.len() <= self.capacity_spec(),
            r matches Ok(v) ==> v@.len() <= (if self.frame_size < 0 {
                0
            } else {
                self.frame_size as int
            }) * self.channels.count_spec(),
    {
        let mut buffer = buffer;
        let per_channel = engine.err_into_opus_exception(
            String::from_str("Failed to decode audio"),
        )?;
        let len = self.decoded_len(per_channel);
        buffer.truncate(len);
        Ok(buffer)
    }
}

/// The bytes to hand the decoder: no input at all is an empty packet, which
/// asks the engine to conceal a lost one.
pub fn encoded_or_empty(encoded: Option<Vec<u8>>) -> (r: Vec<u8>)
    ensures
        r@ == (match encoded {
            Some(v) => v@,
            None => Seq::<u8>::empty(),
        }),
{
    match encoded {
        Some(v) => v,
        None => Vec::new(),
    }
}

/// Registers a freshly built decoder engine as a session and returns its
/// handle; a fault of the engine's construction becomes a codec error.
pub fn create_decoder<D>(
    registry: &mut Registry<DecoderContainer<D>>,
    engine: Result<D, String>,
    stereo: u8,
    frame_size: i32,
) -> (r: Result<i64, JavaException>)
    requires
        old(registry).wf(),
    ensures
        final(registry).wf(),
        final(registry).slot_count() <= old(registry).slot_count() + 1,
        engine matches Err(cause) ==> {
            &&& r matches Err(e) && e.is_opus() && e.message@ == with_cause_spec(
                "Failed to create decoder"@,
                cause@,
            )
            &&& final(registry)@ == old(registry)@
            &&& final(registry).retired() == old(registry).retired()
        },
        engine is Ok ==> (r is Err <==> old(registry).is_full()),
        engine matches Ok(d) ==> r matches Ok(h) ==> {
            &&& h != NO_HANDLE
            &&& !old(registry)@.contains_key(h)
            &&& !old(registry).retired().contains(h)
            &&& final(registry)@ == old(registry)@.insert(
                h,
                DecoderContainer { decoder: d, channels: channels_spec(stereo), frame_size },
            )
            &&& final(registry).retired() == old(registry).retired()
        },
        r matches Err(e) ==> engine is Ok ==> e.is_illegal_state() && final(registry)@ == old(
            registry,
        )@,
{
    let decoder = engine.err_into_opus_exception(String::from_str("Failed to create decoder"))?;
    let channels = channels_from_flag(stereo);
    registry.allocate(DecoderContainer { decoder, channels, frame_size })
}

/// Closes a decoder session, freeing its engine once, and returns the value
/// the caller must store in place of the handle.
pub fn decoder_close<D>(registry: &mut Registry<DecoderContainer<D>>, handle: i64) -> (r: Result<
    i64,
    JavaException,
>)
    requires
        old(registry).wf(),
    ensures
        final(registry).wf(),
        final(registry).slot_count() == old(registry).slot_count(),
        r is Err <==> !old(registry)@.contains_key(handle),
        r matches Ok(z) ==> {
            &&& z == NO_HANDLE
            &&& final(registry)@ == old(registry)@.remove(handle)
            &&& final(registry).retired() == old(registry).retired().insert(handle)
        },
        r matches Err(e) ==> {
            &&& e.is_illegal_state()
            &&& final(registry)@ == old(registry)@
            &&& final(registry).retired() == old(registry).retired()
        },
{
    let _container = registry.release(handle)?;
    Ok(NO_HANDLE)
}

} // verus!
