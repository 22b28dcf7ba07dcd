//! The plugin's descriptor: its identity, its capabilities and its name, in
//! buffers of fixed capacity that are always terminated.
use vstd::prelude::*;
use crate::guid::{Guid, IID_IAUDIOPROCESSINGOBJECT, IID_IRUSTAPO};
use crate::wide::{
    c_string_units, first_nul, lemma_first_nul, lemma_first_nul_is, utf16_units, wide_c_string,
};

verus! {

/// The object processes in place: input and output share a buffer.
pub const APO_FLAG_INPLACE: u32 = 1;

/// Input and output must have the same number of samples per frame.
pub const APO_FLAG_SAMPLESPERFRAME_MUST_MATCH: u32 = 2;

/// Input and output must have the same frame rate.
pub const APO_FLAG_FRAMESPERSECOND_MUST_MATCH: u32 = 4;

/// Input and output must have the same bit depth.
pub const APO_FLAG_BITSPERSAMPLE_MUST_MATCH: u32 = 8;

/// The number of units in a descriptor's text buffers.
pub const NAME_CAPACITY: usize = 256;

/// What the host can read of a plugin: its identity and its capabilities.
#[derive(Debug)]
pub struct PluginDescriptor {
    pub clsid: Guid,
    pub flags: u32,
    pub friendly_name: [u16; 256],
    pub copyright_info: [u16; 256],
    pub major_version: u32,
    pub minor_version: u32,
    pub min_input_connections: u32,
    pub max_input_connections: u32,
    pub min_output_connections: u32,
    pub max_output_connections: u32,
    pub max_instances: u32,
    pub num_interfaces: u32,
    pub interfaces: Vec<Guid>,
}

/// A descriptor as plain values.
pub struct DescriptorView {
    pub clsid: Guid,
    pub flags: u32,
    pub friendly_name: Seq<u16>,
    pub copyright_info: Seq<u16>,
    pub major_version: u32,
    pub minor_version: u32,
    pub min_input_connections: u32,
    pub max_input_connections: u32,
    pub min_output_connections: u32,
    pub max_output_connections: u32,
    pub max_instances: u32,
    pub num_interfaces: u32,
    pub interfaces: Seq<Guid>,
}

impl View for PluginDescriptor {
    type V = DescriptorView;

    open spec fn view(&self) -> DescriptorView {
        DescriptorView {
            clsid: self.clsid,
            flags: self.flags,
            friendly_name: self.friendly_name@,
            copyright_info: self.copyright_info@,
            major_version: self.major_version,
            minor_version: self.minor_version,
            min_input_connections: self.min_input_connections,
            max_input_connections: self.max_input_connections,
            min_output_connections: self.min_output_connections,
            max_output_connections: self.max_output_connections,
            max_instances: self.max_instances,
            num_interfaces: self.num_interfaces,
            interfaces: self.interfaces@,
        }
    }
}

impl DescriptorView {
    /// A descriptor is well formed where it lists as many interfaces as it
    /// declares, and each text buffer has the fixed capacity and holds a
    /// terminator.
    pub open spec fn wf(self) -> bool {
        &&& self.interfaces.len() == self.num_interfaces
        &&& self.friendly_name.len() == NAME_CAPACITY
        &&& self.copyright_info.len() == NAME_CAPACITY
        &&& first_nul(self.friendly_name) < NAME_CAPACITY
        &&& first_nul(self.copyright_info) < NAME_CAPACITY
    }

    /// Whether the capability `flag` is set.
    pub open spec fn has_flag(self, flag: u32) -> bool {
        self.flags & flag == flag
    }
}

/// A text in a buffer of fixed capacity: as many units of the source as fit
/// before the last place, and zeros after them.
pub open spec fn fixed_units(source: Seq<u16>) -> Seq<u16> {
    Seq::new(
        NAME_CAPACITY as nat,
        |i: int|
            if i < source.len() && i < NAME_CAPACITY - 1 {
                source[i]
            } else {
                0u16
            },
    )
}

/// The plugin's friendly name, "RustAPO", as terminated UTF-16.
pub open spec fn friendly_name_units() -> Seq<u16> {
    seq![82u16, 117, 115, 116, 65, 80, 79, 0]
}

/// The capabilities that the plugin declares: it processes in place and
/// wants bit depth, frame rate and samples per frame to match.
pub open spec fn plugin_flags() -> u32 {
    APO_FLAG_BITSPERSAMPLE_MUST_MATCH | APO_FLAG_FRAMESPERSECOND_MUST_MATCH | APO_FLAG_INPLACE
        | APO_FLAG_SAMPLESPERFRAME_MUST_MATCH
}

/// The plugin's descriptor.
pub open spec fn apo_descriptor() -> DescriptorView {
    DescriptorView {
        clsid: Guid(IID_IRUSTAPO),
        flags: plugin_flags(),
        friendly_name: fixed_units(friendly_name_units()),
        copyright_info: fixed_units(Seq::empty()),
        major_version: 1,
        minor_version: 0,
        min_input_connections: 1,
        max_input_connections: 1,
        min_output_connections: 1,
        max_output_connections: 1,
        max_instances: 0xFFFF_FFFF,
        num_interfaces: 1,
        interfaces: seq![Guid(IID_IAUDIOPROCESSINGOBJECT)],
    }
}

/// A fixed buffer is terminated whatever the source's length, and up to its
/// terminator it holds the source's text, cut after 255 units.
pub proof fn lemma_fixed_units_terminated(source: Seq<u16>)
    ensures
        fixed_units(source).len() == NAME_CAPACITY,
        first_nul(fixed_units(source)) < NAME_CAPACITY,
        first_nul(fixed_units(source)) == if first_nul(source) < NAME_CAPACITY - 1 {
            first_nul(source)
        } else {
            NAME_CAPACITY - 1
        },
        fixed_units(source).take(first_nul(fixed_units(source))) == source.take(
            first_nul(fixed_units(source)),
        ),
{
    let at = if first_nul(source) < NAME_CAPACITY - 1 {
        first_nul(source)
    } else {
        NAME_CAPACITY - 1
    };
    lemma_first_nul(source);
    lemma_first_nul_is(fixed_units(source), at);
    assert(fixed_units(source).take(at) =~= source.take(at));
}

/// Copies a text into a buffer of fixed capacity. A source that does not fit
/// is cut: the buffer always ends in a terminator.
pub fn name_buffer(source: &[u16]) -> (buffer: [u16; 256])
    ensures
        buffer@ == fixed_units(source@),
        first_nul(buffer@) < NAME_CAPACITY,
{
    let mut buffer = [0u16; 256];
    let mut i: usize = 0;
    while i < source.len() && i < NAME_CAPACITY - 1
        invariant
            i <= source@.len(),
            i <= NAME_CAPACITY - 1,
            buffer@.len() == NAME_CAPACITY,
            forall|k: int| 0 <= k < i ==> buffer@[k] == source@[k],
            forall|k: int| i <= k < NAME_CAPACITY ==> buffer@[k] == 0,
        decreases source@.len() - i,
    {
        buffer[i] = source[i];
        i += 1;
    }
    assert(buffer@ =~= fixed_units(source@));
    proof {
        lemma_fixed_units_terminated(source@);
    }
    buffer
}

/// The plugin's friendly name as terminated UTF-16.
pub fn friendly_name() -> (name: Vec<u16>)
    ensures
        name@ == friendly_name_units(),
{
    proof {
        lemma_friendly_name_units();
    }
    match wide_c_string("RustAPO") {
        Some(name) => name,
        None => unreached(),
    }
}

/// "RustAPO" encodes to the friendly name's units before their terminator,
/// and the terminator is added to them.
pub proof fn lemma_friendly_name_units()
    ensures
        utf16_units("RustAPO"@) == friendly_name_units().drop_last(),
        c_string_units(utf16_units("RustAPO"@)) == Some(friendly_name_units()),
        first_nul(friendly_name_units()) == 7,
{
    reveal_strlit("RustAPO");
    let text = "RustAPO"@;
    let units = seq![82u16, 117, 115, 116, 65, 80, 79];
    reveal_with_fuel(utf16_units, 8);
    assert(text.skip(1).skip(1).skip(1).skip(1).skip(1).skip(1).skip(1).len() == 0);
    assert(utf16_units(text) =~= units);
    lemma_first_nul_is(units, 7);
    assert(units.push(0) =~= friendly_name_units());
    assert(units =~= friendly_name_units().drop_last());
    lemma_first_nul_is(friendly_name_units(), 7);
}

/// Builds the plugin's descriptor.
pub fn apo_props() -> (props: PluginDescriptor)
    ensures
        props@ == apo_descriptor(),
        props@.wf(),
{
    let name = friendly_name();
    let empty: Vec<u16> = Vec::new();
    let mut interfaces: Vec<Guid> = Vec::new();
    interfaces.push(Guid(IID_IAUDIOPROCESSINGOBJECT));
    let props = PluginDescriptor {
        clsid: Guid(IID_IRUSTAPO),
        flags: APO_FLAG_BITSPERSAMPLE_MUST_MATCH | APO_FLAG_FRAMESPERSECOND_MUST_MATCH
            | APO_FLAG_INPLACE | APO_FLAG_SAMPLESPERFRAME_MUST_MATCH,
        friendly_name: name_buffer(name.as_slice()),
        copyright_info: name_buffer(empty.as_slice()),
        major_version: 1,
        minor_version: 0,
        min_input_connections: 1,
        max_input_connections: 1,
        min_output_connections: 1,
        max_output_connections: 1,
        max_instances: u32::MAX,
        num_interfaces: 1,
        interfaces,
    };
    assert(props@.interfaces =~= seq![Guid(IID_IAUDIOPROCESSINGOBJECT)]);
    assert(empty@ =~= Seq::<u16>::empty());
    props
}

/// The declared capabilities are the four flags together, and no other bit.
pub proof fn lemma_plugin_flags()
    ensures
        plugin_flags() == 15,
        apo_descriptor().has_flag(APO_FLAG_INPLACE),
        apo_descriptor().has_flag(APO_FLAG_SAMPLESPERFRAME_MUST_MATCH),
        apo_descriptor().has_flag(APO_FLAG_FRAMESPERSECOND_MUST_MATCH),
        apo_descriptor().has_flag(APO_FLAG_BITSPERSAMPLE_MUST_MATCH),
{
    assert((8u32 | 4u32 | 1u32 | 2u32) == 15u32) by (bit_vector);
    assert(15u32 & 1u32 == 1u32) by (bit_vector);
    assert(15u32 & 2u32 == 2u32) by (bit_vector);
    assert(15u32 & 4u32 == 4u32) by (bit_vector);
    assert(15u32 & 8u32 == 8u32) by (bit_vector);
}

} // verus!
