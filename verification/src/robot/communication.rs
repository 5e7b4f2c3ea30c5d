//! The communication layer: prioritised messages, bounded per-channel
//! queues, and a manager over the open channels.

use vstd::prelude::*;

verus! {

/// Protocol of a channel.
#[derive(Debug, Clone, Copy, PartialEq, Eq, Structural)]
pub enum CommunicationProtocol {
    Serial,
    TCP,
    UDP,
    Bluetooth,
    WiFi,
    CAN,
    I2C,
    SPI,
}

/// State of a channel.
#[derive(Debug, Clone, Copy, PartialEq, Eq, Structural)]
pub enum CommunicationState {
    Disconnected,
    Connecting,
    Connected,
    Error,
}

/// One message: an identifier, its payload, a timestamp and a priority.
#[derive(Debug, Clone)]
pub struct Message {
    pub id: usize,
    pub data: Vec<u8>,
    pub timestamp: u64,
    pub priority: u8,
}

impl Message {
    /// Create a message with the given identifier.  Identifiers are
    /// handed out by the channel's owner; no clock is attached, so the
    /// timestamp stays at zero.
    pub fn new(id: usize, data: Vec<u8>, priority: u8) -> (r: Self)
        ensures
            r.id == id,
            r.data@ == data@,
            r.timestamp == 0,
            r.priority == priority,
    {
        Self { id, data, timestamp: 0, priority }
    }
}

/// One channel: its protocol, state and bounded send and receive queues.
pub struct CommunicationChannel {
    pub id: usize,
    pub protocol: CommunicationProtocol,
    pub state: CommunicationState,
    pub send_queue: Vec<Message>,
    pub receive_queue: Vec<Message>,
    pub max_queue_size: usize,
}

impl CommunicationChannel {
    /// Open a disconnected channel with empty queues and the default
    /// queue bound.
    pub fn new(id: usize, protocol: CommunicationProtocol) -> (r: Self)
        ensures
            r.id == id,
            r.protocol == protocol,
            r.state == CommunicationState::Disconnected,
            r.send_queue@.len() == 0,
            r.receive_queue@.len() == 0,
            r.max_queue_size == 100,
    {
        Self {
            id,
            protocol,
            state: CommunicationState::Disconnected,
            send_queue: Vec::new(),
            receive_queue: Vec::new(),
            max_queue_size: 100,
        }
    }

    /// Queue a message for sending.  Succeeds exactly on a connected
    /// channel whose send queue has room.
    pub fn send_message(&mut self, message: Message) -> (r: bool)
        ensures
            r == (old(self).state == CommunicationState::Connected && old(self).send_queue@.len()
                < old(self).max_queue_size),
            r ==> final(self).send_queue@ =~= old(self).send_queue@.push(message),
            !r ==> final(self).send_queue@ =~= old(self).send_queue@,
            final(self).receive_queue == old(self).receive_queue,
            final(self).state == old(self).state,
            final(self).id == old(self).id,
            final(self).protocol == old(self).protocol,
            final(self).max_queue_size == old(self).max_queue_size,
    {
        match self.state {
            CommunicationState::Connected => {
                if self.send_queue.len() < self.max_queue_size {
                    self.send_queue.push(message);
                    true
                } else {
                    false
                }
            },
            _ => false,
        }
    }

    /// Take the most recently received message.
    pub fn receive_message(&mut self) -> (r: Option<Message>)
        ensures
            final(self).send_queue == old(self).send_queue,
            final(self).state == old(self).state,
            final(self).id == old(self).id,
            final(self).protocol == old(self).protocol,
            final(self).max_queue_size == old(self).max_queue_size,
            old(self).receive_queue@.len() == 0 ==> r is None && final(self).receive_queue@
                =~= old(self).receive_queue@,
            old(self).receive_queue@.len() > 0 ==> r == Some(old(self).receive_queue@.last())
                && final(self).receive_queue@ =~= old(self).receive_queue@.drop_last(),
    {
        self.receive_queue.pop()
    }

    /// Connect the channel.  No transport is attached, so the connection
    /// is immediate.
    pub fn connect(&mut self) -> (r: bool)
        ensures
            r,
            *final(self) == (CommunicationChannel {
                state: CommunicationState::Connected,
                ..*old(self)
            }),
    {
        self.state = CommunicationState::Connecting;
        self.state = CommunicationState::Connected;
        true
    }

    /// Disconnect the channel and drop both queues.
    pub fn disconnect(&mut self)
        ensures
            final(self).state == CommunicationState::Disconnected,
            final(self).send_queue@.len() == 0,
            final(self).receive_queue@.len() == 0,
            final(self).id == old(self).id,
            final(self).protocol == old(self).protocol,
            final(self).max_queue_size == old(self).max_queue_size,
    {
        self.state = CommunicationState::Disconnected;
        self.send_queue.truncate(0);
        self.receive_queue.truncate(0);
        proof {
            assert(self.send_queue@ =~= old(self).send_queue@.subrange(0, 0));
            assert(self.receive_queue@ =~= old(self).receive_queue@.subrange(0, 0));
        }
    }

    /// Advance the channel: a connected channel flushes its send queue;
    /// no transport is attached, so flushed messages leave the system.
    pub fn update(&mut self)
        ensures
            final(self).state == old(self).state,
            final(self).id == old(self).id,
            final(self).protocol == old(self).protocol,
            final(self).max_queue_size == old(self).max_queue_size,
            final(self).receive_queue == old(self).receive_queue,
            old(self).state == CommunicationState::Connected ==> final(self).send_queue@.len()
                == 0,
            old(self).state != CommunicationState::Connected ==> final(self).send_queue == old(self).send_queue,
    {
        match self.state {
            CommunicationState::Connecting => {},
            CommunicationState::Connected => {
                self.process_messages();
            },
            _ => {},
        }
    }

    /// Drain the send queue; the transport write would happen here.
    fn process_messages(&mut self)
        ensures
            final(self).send_queue@.len() == 0,
            final(self).receive_queue == old(self).receive_queue,
            final(self).state == old(self).state,
            final(self).id == old(self).id,
            final(self).protocol == old(self).protocol,
            final(self).max_queue_size == old(self).max_queue_size,
    {
        loop
            invariant
                self.receive_queue == old(self).receive_queue,
                self.state == old(self).state,
                self.id == old(self).id,
                self.protocol == old(self).protocol,
                self.max_queue_size == old(self).max_queue_size,
            ensures
                self.send_queue@.len() == 0,
                self.receive_queue == old(self).receive_queue,
                self.state == old(self).state,
                self.id == old(self).id,
                self.protocol == old(self).protocol,
                self.max_queue_size == old(self).max_queue_size,
            decreases self.send_queue@.len(),
        {
            match self.send_queue.pop() {
                Some(_message) => {},
                None => {
                    break ;
                },
            }
        }
    }
}

/// Slot `i` of the channel list holds the channel with the given id.
pub open spec fn channel_at(s: Seq<CommunicationChannel>, i: int, id: usize) -> bool {
    0 <= i < s.len() && s[i].id == id
}

/// Slot `i` of the channel list holds a channel of the given protocol.
pub open spec fn channel_with_protocol(
    s: Seq<CommunicationChannel>,
    i: int,
    protocol: CommunicationProtocol,
) -> bool {
    0 <= i < s.len() && s[i].protocol == protocol
}

/// The communication manager: the open channels and the id counter.
pub struct CommunicationManager {
    channels: Vec<CommunicationChannel>,
    next_channel_id: usize,
}

impl CommunicationManager {
    /// The open channels.
    pub closed spec fn spec_channels(&self) -> Seq<CommunicationChannel> {
        self.channels@
    }

    /// The next id to hand out.
    pub closed spec fn next_id(&self) -> usize {
        self.next_channel_id
    }

    /// Create a manager with no channels.
    pub fn new() -> (r: Self)
        ensures
            r.spec_channels().len() == 0,
            r.next_id() == 1,
    {
        Self { channels: Vec::new(), next_channel_id: 1 }
    }

    /// Open a channel of the given protocol and hand its id out.
    pub fn add_channel(&mut self, protocol: CommunicationProtocol) -> (r: usize)
        requires
            old(self).next_id() < usize::MAX,
        ensures
            r == old(self).next_id(),
            final(self).next_id() == old(self).next_id() + 1,
            final(self).spec_channels().len() == old(self).spec_channels().len() + 1,
            final(self).spec_channels().drop_last() =~= old(self).spec_channels(),
            final(self).spec_channels().last().id == r,
            final(self).spec_channels().last().protocol == protocol,
            final(self).spec_channels().last().state == CommunicationState::Disconnected,
    {
        let id = self.next_channel_id;
        self.next_channel_id = self.next_channel_id + 1;
        let channel = CommunicationChannel::new(id, protocol);
        self.channels.push(channel);
        id
    }

    /// The slot of the channel with the given id; the first match wins.
    fn find_channel_index(&self, id: usize) -> (r: Option<usize>)
        ensures
            r is Some <==> exists|i: int| channel_at(self.spec_channels(), i, id),
            r matches Some(k) ==> channel_at(self.spec_channels(), k as int, id),
    {
        let n = self.channels.len();
        let mut i: usize = 0;
        while i < n
            invariant
                n == self.spec_channels().len(),
                0 <= i <= n,
                forall|j: int| 0 <= j < i ==> !channel_at(self.spec_channels(), j, id),
            decreases n - i,
        {
            if self.channels[i].id == id {
                proof {
                    assert(channel_at(self.spec_channels(), i as int, id));
                }
                return Some(i);
            }
            i = i + 1;
        }
        None
    }

    /// Borrow the channel with the given id; the first match wins, and
    /// whatever the caller does with the borrow is the only change.
    pub fn get_channel(&mut self, id: usize) -> (r: Option<&mut CommunicationChannel>)
        ensures
            r is Some <==> exists|i: int| channel_at(old(self).spec_channels(), i, id),
            r matches Some(c) ==> exists|i: int|
                {
                    &&& channel_at(old(self).spec_channels(), i, id)
                    &&& (forall|j: int| 0 <= j < i ==> !channel_at(old(self).spec_channels(), j, id))
                    &&& *c == old(self).spec_channels()[i]
                    &&& final(self).spec_channels() =~= old(self).spec_channels().update(i, *final(c))
                    &&& final(self).next_id() == old(self).next_id()
                },
            r is None ==> *final(self) == *old(self),
    {
        let n = self.channels.len();
        let mut i: usize = 0;
        while i < n
            invariant
                *self == *old(self),
                n == self.spec_channels().len(),
                0 <= i <= n,
                forall|j: int| 0 <= j < i ==> !channel_at(self.spec_channels(), j, id),
            decreases n - i,
        {
            if self.channels[i].id == id {
                proof {
                    assert(channel_at(self.spec_channels(), i as int, id));
                }
                return Some(&mut self.channels[i]);
            }
            i = i + 1;
        }
        None
    }

    /// Borrow the first channel of the given protocol; whatever the
    /// caller does with the borrow is the only change.
    pub fn find_channel_by_protocol(&mut self, protocol: CommunicationProtocol) -> (r: Option<
        &mut CommunicationChannel,
    >)
        ensures
            r is Some <==> exists|i: int|
                channel_with_protocol(old(self).spec_channels(), i, protocol),
            r matches Some(c) ==> exists|i: int|
                {
                    &&& channel_with_protocol(old(self).spec_channels(), i, protocol)
                    &&& (forall|j: int|
                        0 <= j < i ==> !channel_with_protocol(old(self).spec_channels(), j, protocol))
                    &&& *c == old(self).spec_channels()[i]
                    &&& final(self).spec_channels() =~= old(self).spec_channels().update(i, *final(c))
                    &&& final(self).next_id() == old(self).next_id()
                },
            r is None ==> *final(self) == *old(self),
    {
        let n = self.channels.len();
        let mut i: usize = 0;
        while i < n
            invariant
                *self == *old(self),
                n == self.spec_channels().len(),
                0 <= i <= n,
                forall|j: int| 0 <= j < i ==> !channel_with_protocol(self.spec_channels(), j, protocol),
            decreases n - i,
        {
            if self.channels[i].protocol == protocol {
                proof {
                    assert(channel_with_protocol(self.spec_channels(), i as int, protocol));
                }
                return Some(&mut self.channels[i]);
            }
            i = i + 1;
        }
        None
    }

    /// Advance every channel.
    pub fn update_all(&mut self)
        ensures
            final(self).spec_channels().len() == old(self).spec_channels().len(),
            final(self).next_id() == old(self).next_id(),
    {
        let n = self.channels.len();
        let mut i: usize = 0;
        while i < n
            invariant
                n == self.spec_channels().len(),
                n == old(self).spec_channels().len(),
                self.next_id() == old(self).next_id(),
                0 <= i <= n,
            decreases n - i,
        {
            self.channels[i].update();
            i = i + 1;
        }
    }

    /// The open channels.
    pub fn get_channels(&self) -> (r: &Vec<CommunicationChannel>)
        ensures
            r@ == self.spec_channels(),
    {
        &self.channels
    }

    /// Queue a message on the channel with the given id; succeeds exactly
    /// when the channel exists, is connected, and its queue has room.
    pub fn send_message(&mut self, channel_id: usize, data: Vec<u8>, priority: u8) -> (r: bool)
        requires
            old(self).next_id() < usize::MAX,
        ensures
            final(self).spec_channels().len() == old(self).spec_channels().len(),
            !(exists|i: int| channel_at(old(self).spec_channels(), i, channel_id)) ==> !r && *final(self) == *old(self),
    {
        let message_id = self.next_channel_id;
        match self.find_channel_index(channel_id) {
            Some(k) => {
                let message = Message::new(message_id, data, priority);
                self.channels[k].send_message(message)
            },
            None => false,
        }
    }

    /// Take the most recently received message of the channel with the
    /// given id.
    pub fn receive_message(&mut self, channel_id: usize) -> (r: Option<Message>)
        ensures
            final(self).spec_channels().len() == old(self).spec_channels().len(),
            !(exists|i: int| channel_at(old(self).spec_channels(), i, channel_id)) ==> r is None
                && *final(self) == *old(self),
    {
        match self.find_channel_index(channel_id) {
            Some(k) => self.channels[k].receive_message(),
            None => None,
        }
    }

    /// Connect the channel with the given id; succeeds exactly when it
    /// exists.
    pub fn connect_channel(&mut self, channel_id: usize) -> (r: bool)
        ensures
            final(self).spec_channels().len() == old(self).spec_channels().len(),
            r == exists|i: int| channel_at(old(self).spec_channels(), i, channel_id),
    {
        match self.find_channel_index(channel_id) {
            Some(k) => self.channels[k].connect(),
            None => false,
        }
    }

    /// Disconnect the channel with the given id, dropping its queues.
    pub fn disconnect_channel(&mut self, channel_id: usize)
        ensures
            final(self).spec_channels().len() == old(self).spec_channels().len(),
            !(exists|i: int| channel_at(old(self).spec_channels(), i, channel_id)) ==> *final(self)
                == *old(self),
    {
        match self.find_channel_index(channel_id) {
            Some(k) => {
                self.channels[k].disconnect();
            },
            None => {},
        }
    }
}

} // verus!
