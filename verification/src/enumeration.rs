//! The list of the plugins that the host knows, as the host's enumeration
//! fills it through a callback.
use vstd::prelude::*;
use crate::descriptor::{
    apo_descriptor, friendly_name_units, lemma_fixed_units_terminated,
    lemma_friendly_name_units, DescriptorView, PluginDescriptor,
};
use crate::guid::{Guid, IID_IRUSTAPO};
use crate::status::{HResult, S_OK};
use crate::wide::{decode_name, first_nul, lemma_utf16_round_trip, utf16_text_lossy};

verus! {

/// The text in a name buffer: the units before the first terminator, or all
/// of them where there is none, with U+FFFD for what is no valid UTF-16.
pub open spec fn name_text(buffer: Seq<u16>) -> Seq<char> {
    utf16_text_lossy(buffer.take(first_nul(buffer)))
}

/// What an enumeration keeps of a descriptor: the friendly name and the
/// identifier.
pub open spec fn entry_of(descriptor: DescriptorView) -> (Seq<char>, Guid) {
    (name_text(descriptor.friendly_name), descriptor.clsid)
}

/// The entries of the descriptors, in their order.
pub open spec fn entries_of(reported: Seq<PluginDescriptor>) -> Seq<(Seq<char>, Guid)> {
    Seq::new(reported.len(), |i: int| entry_of(reported[i]@))
}

/// Of the plugin's own descriptor an enumeration keeps the name "RustAPO"
/// and the plugin's identifier: what registration publishes is what an
/// enumeration reads.
pub proof fn lemma_plugin_entry()
    ensures
        entry_of(apo_descriptor()) == ("RustAPO"@, Guid(IID_IRUSTAPO)),
{
    let name = friendly_name_units();
    lemma_friendly_name_units();
    lemma_fixed_units_terminated(name);
    lemma_utf16_round_trip("RustAPO"@);
    assert(name.take(7) =~= name.drop_last());
}

/// The plugins that the host knows, each by friendly name and identifier, in
/// the order in which the host reported them.
#[derive(Debug)]
pub struct Apos {
    names: Vec<(String, Guid)>,
}

impl View for Apos {
    type V = Seq<(Seq<char>, Guid)>;

    closed spec fn view(&self) -> Seq<(Seq<char>, Guid)> {
        Seq::new(self.names@.len(), |i: int| (self.names@[i].0@, self.names@[i].1))
    }
}

impl Apos {
    /// The result of an enumeration in which the host reported the
    /// descriptors `reported`, one call of the callback for each, and then
    /// ended with `status`. Where the host failed there is no result, not
    /// even a partial one; else there is one entry for each descriptor, in
    /// the host's order: none for a host that knows no plugin.
    pub fn new(status: HResult, reported: &[PluginDescriptor]) -> (found: Result<Self, HResult>)
        ensures
            status.failed() ==> found == Err::<Self, HResult>(status),
            !status.failed() ==> found is Ok && found->Ok_0@ == entries_of(reported@),
    {
        let mut apos = Self::empty();
        let mut i: usize = 0;
        while i < reported.len()
            invariant
                i <= reported@.len(),
                apos@ == entries_of(reported@.take(i as int)),
            decreases reported@.len() - i,
        {
            let _ = cb(&reported[i], &mut apos);
            assert(apos@ =~= entries_of(reported@.take(i + 1)));
            i += 1;
        }
        assert(reported@.take(i as int) =~= reported@);
        apos.finish(status)
    }

    /// Ends an enumeration that the host ended with `status`: where the host
    /// failed, what the callback gathered is dropped and the failure handed
    /// on as it is.
    pub fn finish(self, status: HResult) -> (found: Result<Self, HResult>)
        ensures
            status.failed() ==> found == Err::<Self, HResult>(status),
            !status.failed() ==> found == Ok::<Self, HResult>(self),
    {
        if status.is_err() {
            Err(status)
        } else {
            Ok(self)
        }
    }

    /// A result without entries, for the callback to fill.
    pub fn empty() -> (apos: Self)
        ensures
            apos@ == Seq::<(Seq<char>, Guid)>::empty(),
    {
        let apos = Apos { names: Vec::new() };
        assert(apos@ =~= Seq::<(Seq<char>, Guid)>::empty());
        apos
    }

    /// The number of entries.
    pub fn len(&self) -> (count: usize)
        ensures
            count == self@.len(),
    {
        self.names.len()
    }

    /// The entry at `index`, by friendly name and identifier, if there are
    /// that many.
    pub fn get(&self, index: usize) -> (entry: Option<(&str, Guid)>)
        ensures
            entry is Some <==> index < self@.len(),
            entry matches Some((name, clsid)) ==> (name@, clsid) == self@[index as int],
    {
        if index < self.names.len() {
            Some((self.names[index].0.as_str(), self.names[index].1))
        } else {
            None
        }
    }
}

/// The callback of an enumeration: appends the plugin that `pproperties`
/// describes to the result, by its friendly name and its identifier, and
/// reports success. A name that is no valid UTF-16 is kept as far as it can
/// be transcribed.
pub fn cb(pproperties: &PluginDescriptor, pvrefdata: &mut Apos) -> (status: HResult)
    ensures
        final(pvrefdata)@ == old(pvrefdata)@.push(entry_of(pproperties@)),
        status == HResult(S_OK),
{
    let guid = pproperties.clsid;
    let friendly_name = decode_name(pproperties.friendly_name.as_slice());
    pvrefdata.names.push((friendly_name, guid));
    assert(pvrefdata@ =~= old(pvrefdata)@.push(entry_of(pproperties@)));
    HResult(S_OK)
}

} // verus!
