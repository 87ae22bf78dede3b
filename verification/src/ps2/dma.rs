//! DMA controller: channel register words and the bookkeeping of channel handlers.
use vstd::prelude::*;

verus! {

/// A DMA channel.
#[derive(Clone, Copy, Debug, PartialEq, Eq, Structural)]
pub enum Channel {
    Vif0,
    Vif1,
    Gif,
    IpuFrom,
    IpuTo,
    Sif0,
    Sif1,
    Sif2,
    SprFrom,
    SprTo,
}

/// The number of DMA channels.
pub const NUM_CHANNELS: usize = 10;

impl Channel {
    pub open spec fn spec_index(self) -> nat {
        match self {
            Channel::Vif0 => 0,
            Channel::Vif1 => 1,
            Channel::Gif => 2,
            Channel::IpuFrom => 3,
            Channel::IpuTo => 4,
            Channel::Sif0 => 5,
            Channel::Sif1 => 6,
            Channel::Sif2 => 7,
            Channel::SprFrom => 8,
            Channel::SprTo => 9,
        }
    }

    /// The channel's number, which indexes its registers.
    pub fn index(&self) -> (i: usize)
        ensures
            i == self.spec_index(),
            i < NUM_CHANNELS,
    {
        match self {
            Channel::Vif0 => 0,
            Channel::Vif1 => 1,
            Channel::Gif => 2,
            Channel::IpuFrom => 3,
            Channel::IpuTo => 4,
            Channel::Sif0 => 5,
            Channel::Sif1 => 6,
            Channel::Sif2 => 7,
            Channel::SprFrom => 8,
            Channel::SprTo => 9,
        }
    }

    /// The channel has tag address save registers (ASR0, ASR1).
    pub open spec fn spec_has_tag_address_save(self) -> bool {
        self.spec_index() < 3
    }

    /// The channel has a scratchpad address register (SADR).
    pub open spec fn spec_has_spr_address(self) -> bool {
        self.spec_index() < 3 || self.spec_index() == 8 || self.spec_index() == 9
    }
}

/// How a channel was set up.
#[derive(Clone, Copy, Debug, PartialEq, Eq, Structural)]
pub struct ChannelFlags {
    pub transfer_tag: bool,
    pub interrupt_safe: bool,
}

impl Default for ChannelFlags {
    fn default() -> (f: ChannelFlags)
        ensures
            f == (ChannelFlags { transfer_tag: false, interrupt_safe: false }),
    {
        ChannelFlags { transfer_tag: false, interrupt_safe: false }
    }
}

/// The direction of a transfer.
#[derive(Clone, Copy, Debug, PartialEq, Eq, Structural)]
pub enum Direction {
    ToMemory,
    FromMemory,
}

impl Direction {
    pub open spec fn spec_code(self) -> u32 {
        match self {
            Direction::ToMemory => 0,
            Direction::FromMemory => 1,
        }
    }
}

/// The transfer mode.
#[derive(Clone, Copy, Debug, PartialEq, Eq, Structural)]
pub enum Mode {
    Normal,
    Chain,
    Interleave,
}

impl Mode {
    pub open spec fn spec_code(self) -> u32 {
        match self {
            Mode::Normal => 0,
            Mode::Chain => 1,
            Mode::Interleave => 2,
        }
    }
}

/// The contents of a channel control register (Dn_CHCR).
#[derive(Clone, Copy, Debug, PartialEq, Eq, Structural)]
pub struct ChannelControlData {
    pub dir: Direction,
    pub mode: Mode,
    /// Ranges from 0..=2.
    pub address_stack_pointer: u8,
    pub transfer_dma_tag_enable: bool,
    pub dma_tag_irq_bit_enable: bool,
    pub start: bool,
    /// Bits 16-31 of the most recently read DMA tag.
    pub tag_bits: u16,
}

impl Default for ChannelControlData {
    fn default() -> (d: ChannelControlData)
        ensures
            d == (ChannelControlData {
                dir: Direction::FromMemory,
                mode: Mode::Normal,
                address_stack_pointer: 0,
                transfer_dma_tag_enable: false,
                dma_tag_irq_bit_enable: true,
                start: false,
                tag_bits: 0,
            }),
    {
        ChannelControlData {
            dir: Direction::FromMemory,
            mode: Mode::Normal,
            address_stack_pointer: 0,
            transfer_dma_tag_enable: false,
            dma_tag_irq_bit_enable: true,
            start: false,
            tag_bits: 0,
        }
    }
}

pub open spec fn flag_value(b: bool) -> u32 {
    if b {
        1
    } else {
        0
    }
}

/// The Dn_CHCR word for `data`: direction at bit 0, mode at bit 2, the address stack pointer
/// (at most 2) at bit 4, the three flags at bits 6, 7 and 8, and the tag bits from bit 16.
pub open spec fn spec_channel_control_word(data: ChannelControlData) -> int {
    data.dir.spec_code() + data.mode.spec_code() * 4 + (if data.address_stack_pointer < 2 {
        data.address_stack_pointer as int
    } else {
        2
    }) * 16 + flag_value(data.transfer_dma_tag_enable) * 64 + flag_value(
        data.dma_tag_irq_bit_enable,
    ) * 128 + flag_value(data.start) * 256 + data.tag_bits * 65536
}

/// The value written to a channel's control register to apply `data`.
pub fn channel_control_word(data: &ChannelControlData) -> (r: u32)
    ensures
        r == spec_channel_control_word(*data),
{
    let d: u32 = match data.dir {
        Direction::ToMemory => 0,
        Direction::FromMemory => 1,
    };
    let m: u32 = match data.mode {
        Mode::Normal => 0,
        Mode::Chain => 1,
        Mode::Interleave => 2,
    };
    let a: u32 = if data.address_stack_pointer < 2 {
        data.address_stack_pointer as u32
    } else {
        2
    };
    let tde: u32 = if data.transfer_dma_tag_enable {
        1
    } else {
        0
    };
    let tie: u32 = if data.dma_tag_irq_bit_enable {
        1
    } else {
        0
    };
    let str: u32 = if data.start {
        1
    } else {
        0
    };
    let tag: u32 = data.tag_bits as u32;
    assert(d | (m << 2u32) | (a << 4u32) | (tde << 6u32) | (tie << 7u32) | (str << 8u32) | (tag
        << 16u32) == d + m * 4 + a * 16 + tde * 64 + tie * 128 + str * 256 + tag * 65536)
        by (bit_vector)
        requires
            d <= 1,
            m <= 2,
            a <= 2,
            tde <= 1,
            tie <= 1,
            str <= 1,
            tag < 65536,
    ;
    d | (m << 2) | (a << 4) | (tde << 6) | (tie << 7) | (str << 8) | (tag << 16)
}

/// Bit `i` of `value` is set.
pub open spec fn bit_set(value: u32, i: u32) -> bool {
    (value >> i) & 1 == 1
}

proof fn lemma_or_bit(value: u32, c: u32, i: u32)
    requires
        c < 32,
        i < 32,
    ensures
        bit_set(value | (1u32 << c), i) == (bit_set(value, i) || i == c),
        !bit_set(0, i),
{
    assert(((((value | (1u32 << c)) >> i) & 1) == 1) == ((((value >> i) & 1) == 1) || i == c) && (
    ((0u32 >> i) & 1) != 1)) by (bit_vector)
        requires
            c < 32,
            i < 32,
    ;
}

/// The D_STAT word that clears the interrupt status of exactly the channels listed.
pub fn stat_clear_word(channels: &[Channel]) -> (r: u32)
    ensures
        forall|i: u32|
            i < 32 ==> (#[trigger] bit_set(r, i) <==> exists|k: int|
                0 <= k < channels@.len() && channels@[k].spec_index() == i),
{
    let mut value: u32 = 0;
    let mut k: usize = 0;
    proof {
        assert forall|i: u32| i < 32 implies !#[trigger] bit_set(value, i) by {
            lemma_or_bit(0, 0, i);
        }
    }
    while k < channels.len()
        invariant
            k <= channels@.len(),
            forall|i: u32|
                i < 32 ==> (#[trigger] bit_set(value, i) <==> exists|j: int|
                    0 <= j < k && channels@[j].spec_index() == i),
        decreases channels@.len() - k,
    {
        let c = channels[k].index() as u32;
        let old_value = value;
        value = value | (1u32 << c);
        proof {
            assert forall|i: u32| i < 32 implies (#[trigger] bit_set(value, i) <==> exists|j: int|
                0 <= j < k + 1 && channels@[j].spec_index() == i) by {
                lemma_or_bit(old_value, c, i);
                if i == c {
                    assert(channels@[k as int].spec_index() == i);
                }
                if exists|j: int| 0 <= j < k + 1 && channels@[j].spec_index() == i {
                    let j = choose|j: int| 0 <= j < k + 1 && channels@[j].spec_index() == i;
                    if j < k {
                    } else {
                        assert(i == c);
                    }
                }
            }
        }
        k = k + 1;
    }
    value
}

/// The Dn_MADR word for `address`: the address with its low four bits and bit 31 cleared.
pub fn memory_address_word(address: u32) -> (r: u32)
    ensures
        r == address % 0x8000_0000 - address % 16,
{
    assert(address & !(0xFu32 | (1u32 << 31u32)) == address % 0x8000_0000 - address % 16)
        by (bit_vector);
    address & !(0xF | (1 << 31))
}

/// Whether a channel control word shows a transfer in progress (its start bit, bit 8).
pub fn control_word_running(value: u32) -> (r: bool)
    ensures
        r == ((value / 256) % 2 == 1),
{
    assert((value & (1u32 << 8u32) != 0) == ((value / 256) % 2 == 1)) by (bit_vector);
    value & (1 << 8) != 0
}

/// A call to make on the DMA controller.
#[derive(Clone, Copy, Debug, PartialEq, Eq, Structural)]
pub enum DmacAction {
    /// Turn off the channel's interrupt, from a context where interrupts may be on.
    DisableDmac(Channel),
    /// Turn off the channel's interrupt, from an interrupt-safe context.
    DisableDmacWithInterrupt(Channel),
    /// Remove the handler with this identifier.
    RemoveHandler(Channel, i32),
    /// Zero the tag address save registers.
    ClearTagAddresses(Channel),
    /// Zero the scratchpad address register.
    ClearSprAddress(Channel),
    /// Register the channel's handler; its identifier is then reported to `handler_added`.
    AddHandler(Channel),
    /// Turn on the channel's interrupt, from a context where interrupts may be on.
    EnableDmac(Channel),
    /// Turn on the channel's interrupt, from an interrupt-safe context.
    EnableDmacWithInterrupt(Channel),
}

/// Which channels are set up, and the handler registered for each.
pub struct ChannelRegistry {
    initialised: Vec<bool>,
    handler_ids: Vec<i32>,
}

/// The actions that shut down a channel, given its state.
pub open spec fn spec_shutdown_actions(
    channel: Channel,
    flags: ChannelFlags,
    initialised: bool,
    handler_id: i32,
) -> Seq<DmacAction> {
    if !initialised || handler_id == 0 {
        seq![]
    } else {
        seq![
            if flags.interrupt_safe {
                DmacAction::DisableDmacWithInterrupt(channel)
            } else {
                DmacAction::DisableDmac(channel)
            },
            DmacAction::RemoveHandler(channel, handler_id),
        ]
    }
}

/// The actions that set up a channel after it has been shut down.
pub open spec fn spec_setup_actions(channel: Channel, has_handler: bool) -> Seq<DmacAction> {
    (if channel.spec_has_tag_address_save() {
        seq![DmacAction::ClearTagAddresses(channel)]
    } else {
        seq![]
    }) + (if channel.spec_has_spr_address() {
        seq![DmacAction::ClearSprAddress(channel)]
    } else {
        seq![]
    }) + (if has_handler {
        seq![DmacAction::AddHandler(channel)]
    } else {
        seq![]
    })
}

impl ChannelRegistry {
    pub closed spec fn spec_initialised(&self) -> Seq<bool> {
        self.initialised@
    }

    pub closed spec fn spec_handler_ids(&self) -> Seq<i32> {
        self.handler_ids@
    }

    pub open spec fn wf(&self) -> bool {
        self.spec_initialised().len() == NUM_CHANNELS && self.spec_handler_ids().len()
            == NUM_CHANNELS
    }

    /// No channel set up, no handler registered.
    pub fn new() -> (r: Self)
        ensures
            r.wf(),
            forall|i: int| 0 <= i < NUM_CHANNELS ==> !#[trigger] r.spec_initialised()[i],
            forall|i: int| 0 <= i < NUM_CHANNELS ==> #[trigger] r.spec_handler_ids()[i] == 0,
    {
        let mut initialised: Vec<bool> = Vec::new();
        let mut handler_ids: Vec<i32> = Vec::new();
        let mut i: usize = 0;
        while i < NUM_CHANNELS
            invariant
                i <= NUM_CHANNELS,
                initialised@.len() == i,
                handler_ids@.len() == i,
                forall|j: int| 0 <= j < i ==> !#[trigger] initialised@[j],
                forall|j: int| 0 <= j < i ==> #[trigger] handler_ids@[j] == 0,
            decreases NUM_CHANNELS - i,
        {
            initialised.push(false);
            handler_ids.push(0);
            i = i + 1;
        }
        ChannelRegistry { initialised, handler_ids }
    }

    pub fn is_initialised(&self, channel: Channel) -> (r: bool)
        requires
            self.wf(),
        ensures
            r == self.spec_initialised()[channel.spec_index() as int],
    {
        self.initialised[channel.index()]
    }

    /// Shuts `channel` down: turns off and removes its handler if it has one, and marks it
    /// not set up. `flags` must be those it was set up with.
    pub fn shutdown_channel(&mut self, channel: Channel, flags: ChannelFlags) -> (actions: Vec<
        DmacAction,
    >)
        requires
            old(self).wf(),
        ensures
            final(self).wf(),
            actions@ == spec_shutdown_actions(
                channel,
                flags,
                old(self).spec_initialised()[channel.spec_index() as int],
                old(self).spec_handler_ids()[channel.spec_index() as int],
            ),
            old(self).spec_initialised()[channel.spec_index() as int] ==> final(self).spec_initialised()
                == old(self).spec_initialised().update(channel.spec_index() as int, false)
                && final(self).spec_handler_ids() == old(self).spec_handler_ids().update(
                channel.spec_index() as int,
                0,
            ),
            !old(self).spec_initialised()[channel.spec_index() as int] ==> *final(self) == *old(
                self,
            ),
    {
        let idx = channel.index();
        let mut actions: Vec<DmacAction> = Vec::new();
        if !self.initialised[idx] {
            assert(actions@ =~= seq![]);
            return actions;
        }
        let id = self.handler_ids[idx];
        if id != 0 {
            if flags.interrupt_safe {
                actions.push(DmacAction::DisableDmacWithInterrupt(channel));
            } else {
                actions.push(DmacAction::DisableDmac(channel));
            }
            actions.push(DmacAction::RemoveHandler(channel, id));
            self.handler_ids.set(idx, 0);
        } else {
            assert(self.handler_ids@ =~= self.handler_ids@.update(idx as int, 0));
        }
        self.initialised.set(idx, false);
        assert(actions@ =~= spec_shutdown_actions(channel, flags, true, id));
        actions
    }

    /// Sets `channel` up: shuts it down, clears its saved addresses and, where it is to have a
    /// handler, asks for one to be added; `handler_added` completes that. Without a handler the
    /// channel is set up at once.
    pub fn initialise_channel(
        &mut self,
        channel: Channel,
        has_handler: bool,
        flags: ChannelFlags,
    ) -> (actions: Vec<DmacAction>)
        requires
            old(self).wf(),
        ensures
            final(self).wf(),
            actions@ == spec_shutdown_actions(
                channel,
                flags,
                old(self).spec_initialised()[channel.spec_index() as int],
                old(self).spec_handler_ids()[channel.spec_index() as int],
            ) + spec_setup_actions(channel, has_handler),
            final(self).spec_initialised() == old(self).spec_initialised().update(
                channel.spec_index() as int,
                !has_handler,
            ),
            final(self).spec_handler_ids() == (if old(self).spec_initialised()[channel.spec_index() as int] {
                old(self).spec_handler_ids().update(channel.spec_index() as int, 0)
            } else {
                old(self).spec_handler_ids()
            }),
    {
        let ghost before = *self;
        let mut actions = self.shutdown_channel(channel, flags);
        let ghost shut = actions@;
        let idx = channel.index();
        if idx < 3 {
            actions.push(DmacAction::ClearTagAddresses(channel));
        }
        if idx < 3 || idx == 8 || idx == 9 {
            actions.push(DmacAction::ClearSprAddress(channel));
        }
        if has_handler {
            actions.push(DmacAction::AddHandler(channel));
        } else {
            self.initialised.set(idx, true);
        }
        proof {
            assert(actions@ =~= shut + spec_setup_actions(channel, has_handler));
            if !before.spec_initialised()[idx as int] {
                assert(self.spec_initialised() =~= before.spec_initialised().update(
                    idx as int,
                    !has_handler,
                ));
            } else {
                assert(self.spec_initialised() =~= before.spec_initialised().update(
                    idx as int,
                    !has_handler,
                ));
            }
        }
        actions
    }

    /// Records the identifier of the handler added for `channel` and marks it set up; the
    /// action returned turns its interrupt on.
    pub fn handler_added(&mut self, channel: Channel, handler_id: i32, flags: ChannelFlags) -> (action:
        DmacAction)
        requires
            old(self).wf(),
        ensures
            final(self).wf(),
            final(self).spec_initialised() == old(self).spec_initialised().update(
                channel.spec_index() as int,
                true,
            ),
            final(self).spec_handler_ids() == old(self).spec_handler_ids().update(
                channel.spec_index() as int,
                handler_id,
            ),
            action == (if flags.interrupt_safe {
                DmacAction::EnableDmacWithInterrupt(channel)
            } else {
                DmacAction::EnableDmac(channel)
            }),
    {
        let idx = channel.index();
        self.handler_ids.set(idx, handler_id);
        self.initialised.set(idx, true);
        if flags.interrupt_safe {
            DmacAction::EnableDmacWithInterrupt(channel)
        } else {
            DmacAction::EnableDmac(channel)
        }
    }
}

/// The register writes that start a normal-mode transfer from memory.
#[derive(Clone, Copy, Debug, PartialEq, Eq, Structural)]
pub struct NormalTransferWords {
    /// D_STAT: clears the channel's interrupt status.
    pub stat: u32,
    /// Dn_QWC: the number of quadwords to send.
    pub quadword_count: u16,
    /// Dn_MADR: where they are.
    pub memory_address: u32,
    /// Dn_CHCR: from memory, normal mode, tag interrupt on, started.
    pub channel_control: u32,
}

/// The control data of a normal-mode transfer from memory.
pub open spec fn normal_send_control() -> ChannelControlData {
    ChannelControlData {
        dir: Direction::FromMemory,
        mode: Mode::Normal,
        address_stack_pointer: 0,
        transfer_dma_tag_enable: false,
        dma_tag_irq_bit_enable: true,
        start: true,
        tag_bits: 0,
    }
}

/// The writes that send the `num_quadwords` quadwords at `address` (64-byte aligned) on
/// `channel`.
pub fn normal_transfer_words(channel: Channel, num_quadwords: usize, address: u32) -> (w:
    NormalTransferWords)
    requires
        address % 64 == 0,
        num_quadwords <= u16::MAX,
    ensures
        forall|i: u32| i < 32 ==> (#[trigger] bit_set(w.stat, i) <==> i == channel.spec_index()),
        w.quadword_count == num_quadwords,
        w.memory_address == address % 0x8000_0000,
        w.channel_control == spec_channel_control_word(normal_send_control()),
{
    let channels = [channel];
    let stat = stat_clear_word(channels.as_slice());
    proof {
        assert forall|i: u32| i < 32 implies (#[trigger] bit_set(stat, i) <==> i == channel.spec_index()) by {
            if i == channel.spec_index() {
                assert(channels@[0].spec_index() == i);
            }
        }
    }
    let data = ChannelControlData {
        start: true,
        ..ChannelControlData::default()
    };
    NormalTransferWords {
        stat,
        quadword_count: num_quadwords as u16,
        memory_address: memory_address_word(address),
        channel_control: channel_control_word(&data),
    }
}

} // verus!
