use vstd::prelude::*;
use vstd::string::*;
use crate::codec::{bitrate_code, bitrate_code_spec, channels_from_flag, channels_spec, Bitrate, Channels};
use crate::error::{opus_failure, with_cause_spec, ErrIntoException, JavaException};
use crate::registry::{Registry, NO_HANDLE};

verus! {

/// An encoder engine together with the configuration that bounds its output.
pub struct EncoderContainer<E> {
    pub encoder: E,
    pub channels: Channels,
    /// The most bytes that one encode call may produce.
    pub mtu_size: i32,
}

impl<E> EncoderContainer<E> {
    /// The byte budget of one packet; a negative MTU allows none.
    pub open spec fn max_packet_spec(&self) -> int {
        if self.mtu_size < 0 {
            0
        } else {
            self.mtu_size as int
        }
    }

    /// The byte budget to hand the engine for one packet.
    pub fn max_packet_size(&self) -> (r: usize)
        ensures
            r == self.max_packet_spec(),
    {
        if self.mtu_size < 0 {
            0
        } else {
            self.mtu_size as usize
        }
    }

    /// Completes an encode call: passes on the packet the engine produced
    /// when it fits the MTU, and reports a fault of the engine, or a packet
    /// over the budget, as a codec error.
    pub fn finish_encode(&self, engine: Result<Vec<u8>, String>) -> (r: Result<
        Vec<u8>,
        JavaException,
    >)
        ensures
            r is Ok <==> (engine matches Ok(p) && p@.len() <= self.max_packet_spec()),
            r matches Ok(v) ==> engine == Ok::<Vec<u8>, String>(v),
            engine matches Err(cause) ==> r matches Err(e) && e.is_opus() && e.message@
                == with_cause_spec("Failed to encode audio"@, cause@),
            r matches Err(e) ==> e.is_opus(),
            r matches Ok(v) ==> v@.len() <= self.max_packet_spec(),
    {
        let packet = engine.err_into_opus_exception(String::from_str("Failed to encode audio"))?;
        if packet.len() <= self.max_packet_size() {
            Ok(packet)
        } else {
            Err(opus_failure("Failed to encode audio", "the packet exceeds the MTU"))
        }
    }
}

/// Completes a bitrate query: reports the engine's setting as a code, or the
/// engine's fault as a codec error.
pub fn bitrate_report(engine: Result<Bitrate, String>) -> (r: Result<i32, JavaException>)
    ensures
        r is Ok <==> engine is Ok,
        engine matches Ok(b) ==> r == Ok::<i32, JavaException>(bitrate_code_spec(b)),
        engine matches Err(cause) ==> r matches Err(e) && e.is_opus() && e.message@
            == with_cause_spec("Failed to get encoder bitrate"@, cause@),
{
    let bitrate = engine.err_into_opus_exception(
        String::from_str("Failed to get encoder bitrate"),
    )?;
    Ok(bitrate_code(bitrate))
}

/// Registers a freshly built encoder engine as a session and returns its
/// handle; a fault of the engine's construction becomes a codec error.
pub fn create_encoder<E>(
    registry: &mut Registry<EncoderContainer<E>>,
    engine: Result<E, String>,
    stereo: u8,
    mtu_size: i32,
) -> (r: Result<i64, JavaException>)
    requires
        old(registry).wf(),
    ensures
        final(registry).wf(),
        final(registry).slot_count() <= old(registry).slot_count() + 1,
        engine matches Err(cause) ==> {
            &&& r matches Err(e) && e.is_opus() && e.message@ == with_cause_spec(
                "Failed to create encoder"@,
                cause@,
            )
            &&& final(registry)@ == old(registry)@
            &&& final(registry).retired() == old(registry).retired()
        },
        engine is Ok ==> (r is Err <==> old(registry).is_full()),
        engine matches Ok(enc) ==> r matches Ok(h) ==> {
            &&& h != NO_HANDLE
            &&& !old(registry)@.contains_key(h)
            &&& !old(registry).retired().contains(h)
            &&& final(registry)@ == old(registry)@.insert(
                h,
                EncoderContainer { encoder: enc, channels: channels_spec(stereo), mtu_size },
            )
            &&& final(registry).retired() == old(registry).retired()
        },
        r matches Err(e) ==> engine is Ok ==> e.is_illegal_state() && final(registry)@ == old(
            registry,
        )@,
{
    let encoder = engine.err_into_opus_exception(String::from_str("Failed to create encoder"))?;
    let channels = channels_from_flag(stereo);
    registry.allocate(EncoderContainer { encoder, channels, mtu_size })
}

/// Closes an encoder session, freeing its engine once, and returns the value
/// the caller must store in place of the handle.
pub fn encoder_close<E>(registry: &mut Registry<EncoderContainer<E>>, handle: i64) -> (r: Result<
    i64,
    JavaException,
>)
    requires
        old(registry).wf(),
    ensures
        final(registry).wf(),
        final(registry).slot_count() == old(registry).slot_count(),
        r is Err <==> !old(registry)@.contains_key(handle),
        r matches Ok(z) ==> {
            &&& z == NO_HANDLE
            &&& final(registry)@ == old(registry)@.remove(handle)
            &&& final(registry).retired() == old(registry).retired().insert(handle)
        },
        r matches Err(e) ==> {
            &&& e.is_illegal_state()
            &&& final(registry)@ == old(registry)@
            &&& final(registry).retired() == old(registry).retired()
        },
{
    let _container = registry.release(handle)?;
    Ok(NO_HANDLE)
}

} // verus!
