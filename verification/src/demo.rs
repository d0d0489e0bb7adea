//! Cyclic user-logic blocks that run inside the scheduler's logic step.

use vstd::prelude::*;

use crate::beckhoff::{EL1008, EL2008};
use crate::image::{spec_write_words, ExternImage};
use crate::mlz_spec::{
    copy_string, spec_copy_words, DiscreteOutput, ERROR, IDLE, RESET, START, WARN,
};

verus! {

/// Drive a digital output from its interface record, one cycle at a time:
/// `RESET` clears output and target and goes idle; `IDLE`/`WARN` watches the
/// target against the value; `START` latches the target's low byte into the
/// output and goes idle; every other state is an error.  The input byte is
/// always latched into the interface value at the end of the cycle.
pub fn fb_blink(data_in: &mut EL1008, data_out: &mut EL2008, iface: &mut DiscreteOutput)
    ensures
        *final(data_in) == *old(data_in),
        final(iface).value == old(data_in).input as i16,
        ({
            let s = old(iface).status & 0xf000;
            if s == RESET {
                &&& final(data_out).output == 0
                &&& final(iface).target == 0
                &&& final(iface).status == IDLE
            } else if s == IDLE || s == WARN {
                &&& *final(data_out) == *old(data_out)
                &&& final(iface).target == old(iface).target
                &&& final(iface).status == if old(iface).target == old(iface).value {
                    IDLE
                } else {
                    WARN
                }
            } else if s == START {
                &&& final(data_out).output == (old(iface).target & 0xff) as u8
                &&& final(iface).target == old(iface).target
                &&& final(iface).status == IDLE
            } else {
                &&& *final(data_out) == *old(data_out)
                &&& final(iface).target == old(iface).target
                &&& final(iface).status == ERROR
            }
        }),
{
    let s = iface.status & 0xf000;
    if s == RESET {
        data_out.output = 0;
        iface.target = 0;
        iface.status = IDLE;
    } else if s == IDLE || s == WARN {
        iface.status = if iface.target == iface.value {
            IDLE
        } else {
            WARN
        };
    } else if s == START {
        let t = iface.target;
        proof {
            assert(0 <= (t & 0xff) < 256) by (bit_vector);
        }
        data_out.output = (t & 0xff) as u8;
        iface.status = IDLE;
    } else {
        iface.status = ERROR;
    }
    iface.value = data_in.input as i16;
}

/// The byte offset where the indexer's interface begins; it is published in
/// the offset register, and the device table is laid out behind it.
pub const INDEXER_OFFS: u16 = 6;

/// The size in bytes of the indexer's interface: the request register and
/// seventeen data registers.
pub const INDEXER_SIZE: u16 = 36;

/// The protocol's magic number, as the bit pattern of its floating-point
/// value; the first two registers of the extern image hold it, low half
/// first.
pub const MAGIC_BITS: u32 = 0x44FBE0A4;

/// One entry of the supervisory device table.  The absolute limits are
/// floating-point values on the wire; here they are carried as their bit
/// patterns, which is all the indexer reads of them.
#[derive(Debug)]
pub struct DeviceInfo {
    pub typcode: u16,
    pub size: u16,
    pub offset: u16,
    pub unit: u16,
    pub flags: u8,
    pub all_flags: u32,
    pub params: Vec<u16>,
    pub name: Vec<u8>,
    pub aux: Vec<Vec<u8>>,
    pub absmax_bits: u32,
    pub absmin_bits: u32,
}

/// A device entry is well-formed when it carries its full parameter block.
pub open spec fn device_wf(d: DeviceInfo) -> bool {
    d.params@.len() == 16
}

impl Default for DeviceInfo {
    /// An empty entry: all numbers zero, an empty name, no auxiliary texts,
    /// and a zeroed parameter block.
    fn default() -> (r: DeviceInfo)
        ensures
            device_wf(r),
            r.typcode == 0 && r.size == 0 && r.offset == 0 && r.unit == 0,
            r.flags == 0 && r.all_flags == 0,
            r.name@.len() == 0 && r.aux@.len() == 0,
            r.absmax_bits == 0 && r.absmin_bits == 0,
            forall|i: int| 0 <= i < 16 ==> r.params@[i] == 0u16,
    {
        let mut params: Vec<u16> = Vec::new();
        let mut i: usize = 0;
        while i < 16
            invariant
                i <= 16,
                params@.len() == i,
                forall|j: int| 0 <= j < i ==> params@[j] == 0u16,
            decreases 16 - i,
        {
            params.push(0);
            i = i + 1;
        }
        DeviceInfo {
            typcode: 0,
            size: 0,
            offset: 0,
            unit: 0,
            flags: 0,
            all_flags: 0,
            params,
            name: Vec::new(),
            aux: Vec::new(),
            absmax_bits: 0,
            absmin_bits: 0,
        }
    }
}

/// The indexer's state: the cycle counter it publishes, whether the device
/// table has been initialized, the table itself, and the identity texts the
/// table's zeroth device answers with.
#[derive(Debug)]
pub struct Globals {
    pub cycle: u16,
    pub indexer_is_init: bool,
    pub devices: Vec<DeviceInfo>,
    pub plc_name: Vec<u8>,
    pub plc_version: Vec<u8>,
    pub plc_author1: Vec<u8>,
    pub plc_author2: Vec<u8>,
}

/// The auxiliary-text presence bits of a device: bit `j` is set when the
/// device has a non-empty auxiliary text `j`, for the first eight texts.
pub open spec fn aux_flag_bits(aux: Seq<Vec<u8>>, j: nat) -> u32
    decreases j,
{
    if j == 0 {
        0u32
    } else {
        let prev = aux_flag_bits(aux, (j - 1) as nat);
        if j - 1 < aux.len() && aux[j - 1]@.len() > 0 {
            prev | (1u32 << ((j - 1) as u32))
        } else {
            prev
        }
    }
}

/// A device's flag word after initialization: the declared flags in the
/// high byte, the auxiliary-text presence bits in the low byte.
pub open spec fn init_flags(d: DeviceInfo) -> u32 {
    ((d.flags as u32) << 24) | aux_flag_bits(d.aux@, 8)
}

/// A device's size after initialization: at least twice the low byte of its
/// type code.
pub open spec fn init_size(d: DeviceInfo) -> u16 {
    let doubled = (d.typcode & 0xff) << 1;
    if d.size < doubled {
        doubled
    } else {
        d.size
    }
}

/// A device's offset after initialization: the running offset if none was
/// declared, the declared one otherwise.
pub open spec fn init_offset(d: DeviceInfo, calc: int) -> int {
    if d.offset == 0 {
        calc
    } else {
        d.offset as int
    }
}

/// The running offset after one device: its offset plus its size.
pub open spec fn next_calc(d: DeviceInfo, calc: int) -> int {
    init_offset(d, calc) + init_size(d)
}

/// One device after the initialization pass.
pub open spec fn init_one(d: DeviceInfo, calc: int) -> DeviceInfo {
    DeviceInfo {
        typcode: d.typcode,
        size: init_size(d),
        offset: init_offset(d, calc) as u16,
        unit: d.unit,
        flags: d.flags,
        all_flags: init_flags(d),
        params: d.params,
        name: d.name,
        aux: d.aux,
        absmax_bits: d.absmax_bits,
        absmin_bits: d.absmin_bits,
    }
}

/// The whole device table after the initialization pass, threading the
/// running offset through the entries in order.
pub open spec fn spec_init_devices(devs: Seq<DeviceInfo>, calc: int) -> Seq<DeviceInfo>
    decreases devs.len(),
{
    if devs.len() == 0 {
        Seq::empty()
    } else {
        seq![init_one(devs[0], calc)] + spec_init_devices(devs.skip(1), next_calc(devs[0], calc))
    }
}

/// Whether the running offsets of the initialization pass stay within the
/// 16-bit address space; outside it the table cannot be addressed.
pub open spec fn chain_fits(devs: Seq<DeviceInfo>, calc: int) -> bool
    decreases devs.len(),
{
    devs.len() == 0 || {
        &&& next_calc(devs[0], calc) <= 0xffff
        &&& chain_fits(devs.skip(1), next_calc(devs[0], calc))
    }
}

fn init_device(d: DeviceInfo, calc: u16) -> (r: (DeviceInfo, u16))
    requires
        next_calc(d, calc as int) <= 0xffff,
    ensures
        r.0 == init_one(d, calc as int),
        r.1 == next_calc(d, calc as int),
{
    let DeviceInfo {
        typcode,
        size,
        offset,
        unit,
        flags,
        all_flags: _,
        params,
        name,
        aux,
        absmax_bits,
        absmin_bits,
    } = d;
    let mut bits: u32 = 0;
    let mut j: usize = 0;
    while j < 8
        invariant
            j <= 8,
            bits == aux_flag_bits(aux@, j as nat),
        decreases 8 - j,
    {
        if aux.len() > j {
            if aux[j].len() > 0 {
                bits = bits | (1u32 << (j as u32));
            }
        }
        j = j + 1;
    }
    let new_flags: u32 = ((flags as u32) << 24) | bits;
    let doubled: u16 = (typcode & 0xff) << 1;
    let new_size: u16 = if size < doubled {
        doubled
    } else {
        size
    };
    let new_offset: u16 = if offset == 0 {
        calc
    } else {
        offset
    };
    let next: u16 = new_offset + new_size;
    (
        DeviceInfo {
            typcode,
            size: new_size,
            offset: new_offset,
            unit,
            flags,
            all_flags: new_flags,
            params,
            name,
            aux,
            absmax_bits,
            absmin_bits,
        },
        next,
    )
}

/// Seventeen zeroed data registers.
pub open spec fn zeros17() -> Seq<u16> {
    Seq::new(17, |i: int| 0u16)
}

/// What the indexer's data registers hold after answering the request
/// `request` against the (initialized) device table: the identity queries
/// for device number zero, the table queries for a listed device, zeros for
/// anything else, and the cycle counter for the liveness query.
pub open spec fn spec_indexer_data(g: Globals, request: u16, cycle: u16) -> Seq<u16> {
    let devnum = (request & 0xff) as int;
    let infotype = ((request >> 8) & 0x7f) as int;
    let base = if devnum == 0 {
        if infotype == 0 {
            seq![0u16, INDEXER_SIZE, INDEXER_OFFS, 0u16, 0u16, 0x8000u16, 0u16, 0u16, 0u16, 0u16]
                + spec_copy_words(Seq::new(7, |i: int| 0u16), g.plc_name@)
        } else if infotype == 1 {
            zeros17().update(0, INDEXER_SIZE)
        } else if infotype == 4 {
            spec_copy_words(zeros17(), g.plc_name@)
        } else if infotype == 5 {
            spec_copy_words(zeros17(), g.plc_version@)
        } else if infotype == 6 {
            spec_copy_words(zeros17(), g.plc_author1@)
        } else if infotype == 7 {
            spec_copy_words(zeros17(), g.plc_author2@)
        } else {
            zeros17()
        }
    } else if devnum <= g.devices@.len() {
        let dev = g.devices@[devnum - 1];
        if infotype == 0 {
            seq![
                dev.typcode,
                dev.size,
                dev.offset,
                dev.unit,
                dev.all_flags as u16,
                (dev.all_flags >> 16) as u16,
                dev.absmin_bits as u16,
                (dev.absmin_bits >> 16) as u16,
                dev.absmax_bits as u16,
                (dev.absmax_bits >> 16) as u16,
            ] + spec_copy_words(Seq::new(7, |i: int| 0u16), dev.name@)
        } else if infotype == 1 {
            zeros17().update(0, dev.size)
        } else if infotype == 2 {
            zeros17().update(0, dev.offset)
        } else if infotype == 3 {
            zeros17().update(0, dev.unit)
        } else if infotype == 4 {
            spec_copy_words(zeros17(), dev.name@)
        } else if infotype == 15 {
            dev.params@ + seq![0u16]
        } else if 0x10 <= infotype <= 0x17 {
            spec_copy_words(
                zeros17(),
                if infotype - 0x10 < dev.aux@.len() {
                    dev.aux@[infotype - 0x10]@
                } else {
                    Seq::<u8>::empty()
                },
            )
        } else {
            zeros17()
        }
    } else {
        zeros17()
    };
    if infotype == 127 {
        base.update(0, cycle)
    } else {
        base
    }
}

fn zeros_vec(n: usize) -> (r: Vec<u16>)
    ensures
        r@ == Seq::new(n as nat, |i: int| 0u16),
{
    let mut r: Vec<u16> = Vec::new();
    let mut i: usize = 0;
    while i < n
        invariant
            i <= n,
            r@.len() == i,
            forall|j: int| 0 <= j < i ==> r@[j] == 0u16,
        decreases n - i,
    {
        r.push(0);
        i = i + 1;
    }
    proof {
        assert(r@ =~= Seq::new(n as nat, |i: int| 0u16));
    }
    r
}

fn copy_of_words(src: &Vec<u16>) -> (r: Vec<u16>)
    ensures
        r@ == src@,
{
    let mut r: Vec<u16> = Vec::new();
    let mut i: usize = 0;
    while i < src.len()
        invariant
            i <= src@.len(),
            r@ == src@.take(i as int),
        decreases src@.len() - i,
    {
        r.push(src[i]);
        proof {
            assert(r@ =~= src@.take(i + 1));
        }
        i = i + 1;
    }
    proof {
        assert(src@.take(src@.len() as int) =~= src@);
    }
    r
}

fn indexer_data(g: &Globals, request: u16) -> (r: Vec<u16>)
    requires
        forall|i: int| 0 <= i < g.devices@.len() ==> device_wf(#[trigger] g.devices@[i]),
    ensures
        r@ == spec_indexer_data(*g, request, g.cycle),
{
    let devnum = (request & 0xff) as usize;
    let infotype = ((request >> 8) & 0x7f) as usize;
    let mut data: Vec<u16>;
    if devnum == 0 {
        if infotype == 0 {
            data = Vec::new();
            data.push(0);
            data.push(INDEXER_SIZE);
            data.push(INDEXER_OFFS);
            data.push(0);
            data.push(0);
            data.push(0x8000);
            data.push(0);
            data.push(0);
            data.push(0);
            data.push(0);
            let mut tail = zeros_vec(7);
            copy_string(&mut tail, &g.plc_name);
            data.append(&mut tail);
        } else if infotype == 1 {
            data = zeros_vec(17);
            data.set(0, INDEXER_SIZE);
        } else if infotype == 4 {
            data = zeros_vec(17);
            copy_string(&mut data, &g.plc_name);
        } else if infotype == 5 {
            data = zeros_vec(17);
            copy_string(&mut data, &g.plc_version);
        } else if infotype == 6 {
            data = zeros_vec(17);
            copy_string(&mut data, &g.plc_author1);
        } else if infotype == 7 {
            data = zeros_vec(17);
            copy_string(&mut data, &g.plc_author2);
        } else {
            data = zeros_vec(17);
        }
    } else if devnum <= g.devices.len() {
        let dev = &g.devices[devnum - 1];
        if infotype == 0 {
            data = Vec::new();
            data.push(dev.typcode);
            data.push(dev.size);
            data.push(dev.offset);
            data.push(dev.unit);
            data.push(#[verifier::truncate] (dev.all_flags as u16));
            data.push(#[verifier::truncate] ((dev.all_flags >> 16) as u16));
            data.push(#[verifier::truncate] (dev.absmin_bits as u16));
            data.push(#[verifier::truncate] ((dev.absmin_bits >> 16) as u16));
            data.push(#[verifier::truncate] (dev.absmax_bits as u16));
            data.push(#[verifier::truncate] ((dev.absmax_bits >> 16) as u16));
            let mut tail = zeros_vec(7);
            copy_string(&mut tail, &dev.name);
            data.append(&mut tail);
        } else if infotype == 1 {
            data = zeros_vec(17);
            data.set(0, dev.size);
        } else if infotype == 2 {
            data = zeros_vec(17);
            data.set(0, dev.offset);
        } else if infotype == 3 {
            data = zeros_vec(17);
            data.set(0, dev.unit);
        } else if infotype == 4 {
            data = zeros_vec(17);
            copy_string(&mut data, &dev.name);
        } else if infotype == 15 {
            data = copy_of_words(&dev.params);
            data.push(0);
            proof {
                assert(data@ =~= dev.params@ + seq![0u16]);
            }
        } else if 0x10 <= infotype && infotype <= 0x17 {
            data = zeros_vec(17);
            if infotype - 0x10 < dev.aux.len() {
                copy_string(&mut data, &dev.aux[infotype - 0x10]);
            } else {
                let empty: Vec<u8> = Vec::new();
                copy_string(&mut data, &empty);
                proof {
                    assert(data@ =~= spec_copy_words(zeros17(), Seq::<u8>::empty()));
                }
            }
        } else {
            data = zeros_vec(17);
        }
    } else {
        data = zeros_vec(17);
    }
    if infotype == 127 {
        data.set(0, g.cycle);
    }
    proof {
        assert(zeros17() =~= Seq::new(17, |i: int| 0u16));
        assert(data@ =~= spec_indexer_data(*g, request, g.cycle));
    }
    data
}

/// Answer the pending supervisory request against the extern image.  On the
/// first run the device table is initialized: flag words are folded from the
/// auxiliary texts, sizes are widened to the type code's claim, and offsets
/// are assigned from a running cursor.  Every run then publishes the magic
/// number and the table offset, fills the data registers with the answer to
/// the request found in the request register, acknowledges that register by
/// setting its top bit, and advances the published cycle counter by one,
/// wrapping at its width.
pub fn indexer(ext: &mut ExternImage, globals: &mut Globals)
    requires
        old(ext).wf(),
        old(ext)@.len() >= 21,
        forall|i: int|
            0 <= i < old(globals).devices@.len() ==> device_wf(#[trigger] old(globals).devices@[i]),
        !old(globals).indexer_is_init ==> chain_fits(
            old(globals).devices@,
            INDEXER_OFFS + INDEXER_SIZE,
        ),
    ensures
        final(ext).wf(),
        final(globals).indexer_is_init,
        final(globals).cycle == if old(globals).cycle == 0xffffu16 {
            0u16
        } else {
            (old(globals).cycle + 1) as u16
        },
        final(globals).devices@ == if old(globals).indexer_is_init {
            old(globals).devices@
        } else {
            spec_init_devices(old(globals).devices@, INDEXER_OFFS + INDEXER_SIZE)
        },
        final(globals).plc_name@ == old(globals).plc_name@,
        final(globals).plc_version@ == old(globals).plc_version@,
        final(globals).plc_author1@ == old(globals).plc_author1@,
        final(globals).plc_author2@ == old(globals).plc_author2@,
        ({
            let request = old(ext)@[3];
            final(ext)@ == spec_write_words(
                old(ext)@,
                4,
                spec_indexer_data(*final(globals), request, old(globals).cycle),
            ).update(0, (MAGIC_BITS & 0xffff) as u16).update(1, (MAGIC_BITS >> 16) as u16).update(
                2,
                INDEXER_OFFS,
            ).update(3, request | 0x8000)
        }),
{
    if !globals.indexer_is_init {
        let mut rest: Vec<DeviceInfo> = Vec::new();
        core::mem::swap(&mut rest, &mut globals.devices);
        let ghost old_devs = rest@;
        let mut updated: Vec<DeviceInfo> = Vec::new();
        let mut calc: u16 = INDEXER_OFFS + INDEXER_SIZE;
        proof {
            assert(updated@ + spec_init_devices(rest@, calc as int) =~= spec_init_devices(
                old_devs,
                INDEXER_OFFS + INDEXER_SIZE,
            ));
        }
        while rest.len() > 0
            invariant
                chain_fits(rest@, calc as int),
                updated@ + spec_init_devices(rest@, calc as int) == spec_init_devices(
                    old_devs,
                    INDEXER_OFFS + INDEXER_SIZE,
                ),
                forall|i: int| 0 <= i < rest@.len() ==> device_wf(#[trigger] rest@[i]),
                forall|i: int| 0 <= i < updated@.len() ==> device_wf(#[trigger] updated@[i]),
            decreases rest@.len(),
        {
            let ghost updated0 = updated@;
            let ghost rest0 = rest@;
            let ghost calc0 = calc as int;
            let d = rest.remove(0);
            proof {
                assert(rest@ =~= rest0.skip(1));
            }
            let (nd, next) = init_device(d, calc);
            updated.push(nd);
            calc = next;
            proof {
                assert(nd == init_one(rest0[0], calc0));
                assert(calc == next_calc(rest0[0], calc0));
                assert(spec_init_devices(rest0, calc0) == seq![init_one(rest0[0], calc0)]
                    + spec_init_devices(rest0.skip(1), next_calc(rest0[0], calc0)));
                assert(updated@ + spec_init_devices(rest@, calc as int) =~= updated0
                    + spec_init_devices(rest0, calc0));
                assert forall|i: int| 0 <= i < rest@.len() implies device_wf(
                    #[trigger] rest@[i],
                ) by {
                    assert(rest@[i] == rest0[i + 1]);
                }
            }
        }
        proof {
            assert(spec_init_devices(rest@, calc as int) =~= Seq::<DeviceInfo>::empty());
            assert(updated@ + spec_init_devices(rest@, calc as int) =~= updated@);
        }
        globals.devices = updated;
        globals.indexer_is_init = true;
    }
    ext.set_word(0, #[verifier::truncate] ((MAGIC_BITS & 0xffff) as u16));
    ext.set_word(1, #[verifier::truncate] ((MAGIC_BITS >> 16) as u16));
    ext.set_word(2, INDEXER_OFFS);
    let request = ext.get_word(3);
    let data = indexer_data(globals, request);
    ext.write_words(4, &data);
    ext.set_word(3, request | 0x8000);
    globals.cycle = if globals.cycle == 0xffff {
        0
    } else {
        globals.cycle + 1
    };
    proof {
        assert(final(ext)@ =~= spec_write_words(
            old(ext)@,
            4,
            spec_indexer_data(*globals, old(ext)@[3], old(globals).cycle),
        ).update(0, (MAGIC_BITS & 0xffff) as u16).update(1, (MAGIC_BITS >> 16) as u16).update(
            2,
            INDEXER_OFFS,
        ).update(3, old(ext)@[3] | 0x8000));
    }
}

} // verus!
