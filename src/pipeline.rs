use crate::frame::{le_bytes, lemma_le_bytes_concat};
use crate::sink::{transport_gone, Sink};
use std::sync::mpsc::SyncSender;
use vstd::prelude::*;

verus! {

/// The sending end of std's bounded channel, carried through as an opaque value.
#[verifier::external_type_specification]
#[verifier::external_body]
#[verifier::reject_recursive_types(T)]
pub struct ExSyncSender<T>(std::sync::mpsc::SyncSender<T>);

/// Relies on SyncSender::send: it blocks until the channel has room for `buf`
/// and fails only when the receiving worker is gone.
#[verifier::external_body]
fn hand_off(tx: &SyncSender<Vec<i16>>, buf: Vec<i16>) -> (r: bool) {
    tx.send(buf).is_ok()
}

/// The pipeline graph: an application-fed source of raw stereo 16-bit samples,
/// a format conversion stage and the platform's audio output.
pub const PIPELINE_DESCRIPTION: &'static str = "appsrc caps=\"audio/x-raw,format=S16LE,channels=2\" name=appsrc0 ! audioconvert ! dvbaudiosink";

/// The name of the source element within the graph.
pub const SOURCE_ELEMENT: &'static str = "appsrc0";

/// How many buffers the source's pool holds.
pub const POOL_DEPTH: u32 = 64;

/// How many buffers may wait between `write` and the worker.
pub const HANDOFF_CAPACITY: usize = 1;

/// The pipeline adapter: every buffer is copied and handed to the worker that
/// feeds the pipeline's source element.
pub struct GstreamerSink {
    tx: SyncSender<Vec<i16>>,
    sent: Ghost<Seq<Seq<i16>>>,
}

impl GstreamerSink {
    /// The buffers accepted by `write`, oldest first.
    pub closed spec fn handed_off(&self) -> Seq<Seq<i16>> {
        self.sent@
    }

    /// An adapter that hands buffers to the worker behind `tx`.
    pub fn from_sender(tx: SyncSender<Vec<i16>>) -> (r: Self)
        ensures
            r.handed_off() == Seq::<Seq<i16>>::empty(),
    {
        GstreamerSink { tx, sent: Ghost(Seq::empty()) }
    }
}

impl Sink for GstreamerSink {
    fn start(&mut self) -> (r: std::io::Result<()>)
        ensures
            r.is_ok(),
            final(self).handed_off() == old(self).handed_off(),
    {
        Ok(())
    }

    fn stop(&mut self) -> (r: std::io::Result<()>)
        ensures
            r.is_ok(),
            final(self).handed_off() == old(self).handed_off(),
    {
        Ok(())
    }

    fn write(&mut self, data: &[i16]) -> (r: std::io::Result<()>)
        ensures
            r.is_ok() ==> final(self).handed_off() == old(self).handed_off().push(data@),
            r.is_err() ==> final(self).handed_off() == old(self).handed_off(),
    {
        let buf = vstd::slice::slice_to_vec(data);
        if hand_off(&self.tx, buf) {
            self.sent = Ghost(self.sent@.push(data@));
            Ok(())
        } else {
            Err(transport_gone())
        }
    }
}

/// Two buffers accepted one after the other reach the worker in that order,
/// each as it was written, and the bytes framed for them are those of the first
/// followed by those of the second.
pub proof fn lemma_writes_in_order(
    s0: GstreamerSink,
    s1: GstreamerSink,
    s2: GstreamerSink,
    b1: Seq<i16>,
    b2: Seq<i16>,
)
    requires
        s1.handed_off() == s0.handed_off().push(b1),
        s2.handed_off() == s1.handed_off().push(b2),
    ensures
        s2.handed_off() == s0.handed_off() + seq![b1, b2],
        le_bytes(b1 + b2) == le_bytes(b1) + le_bytes(b2),
{
    assert(s2.handed_off() =~= s0.handed_off() + seq![b1, b2]);
    lemma_le_bytes_concat(b1, b2);
}

} // verus!
