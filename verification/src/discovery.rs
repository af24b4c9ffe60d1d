//! How a generic device learns from its back end what it is.
//!
//! The front end claims the connection, makes sure that the back end knows the discovery
//! requests, and asks for the device's type, the number of its queues, the size of its
//! configuration space and the sizes of the queues, in this order.
use vstd::prelude::*;

use crate::bytes::{encode, Endian};
use crate::error::{refused, Error};
use crate::exchange::Exchange;
use crate::features::{
    has_feature, union, with_feature, without_feature, HandlerConfig, F_PROTOCOL_FEATURES,
    F_RING_PACKED, PROTOCOL_F_CONFIG, PROTOCOL_F_DISCOVERY, PROTOCOL_F_MQ, PROTOCOL_F_REPLY_ACK,
    PROTOCOL_F_STATUS,
};
use crate::requests::{
    get_queue_size, get_u64, queue_size_request, CONFIG_SIZE, DEVICE_ID, GET_FEATURES,
    GET_PROTOCOL_FEATURES, QUEUE_NUM, QUEUE_SIZE, SET_OWNER, SET_PROTOCOL_FEATURES,
};

verus! {

/// The word of protocol features that holds the discovery requests alone.
pub const DISCOVERY_FEATURE: u64 = 0x100_0000_0000;

/// What the front end is doing.
#[derive(Clone, Copy, Debug, PartialEq, Eq, Structural)]
pub enum Stage {
    SettingOwner,
    ReadingFeatures,
    ReadingProtocolFeatures,
    EnablingDiscovery,
    ReadingDeviceId,
    ReadingQueueNum,
    ReadingConfigSize,
    ReadingQueueSizes,
    Complete,
}

/// A discovery under way, and what it has found.
pub struct Discovery {
    /// The number of queues that the owner prescribes, if it does.
    pub prescribed_queues: Option<u64>,
    pub stage: Stage,
    /// The device features of the back end.
    pub features: u64,
    pub device_id: u32,
    pub num_queues: usize,
    pub config_len: u64,
    /// The sizes of the queues that have been asked for.
    pub queue_sizes: Vec<u16>,
}

/// The mathematical form of a `Discovery`.
#[verifier::ext_equal]
pub struct DiscoveryView {
    pub prescribed_queues: Option<u64>,
    pub stage: Stage,
    pub features: u64,
    pub device_id: u32,
    pub num_queues: usize,
    pub config_len: u64,
    pub queue_sizes: Seq<u16>,
}

impl View for Discovery {
    type V = DiscoveryView;

    open spec fn view(&self) -> DiscoveryView {
        DiscoveryView {
            prescribed_queues: self.prescribed_queues,
            stage: self.stage,
            features: self.features,
            device_id: self.device_id,
            num_queues: self.num_queues,
            config_len: self.config_len,
            queue_sizes: self.queue_sizes@,
        }
    }
}

/// A request as the protocol sees it: its code, its payload, and whether a reply is awaited.
pub struct Request {
    pub code: u32,
    pub payload: Seq<u8>,
    pub replied: bool,
}

impl DiscoveryView {
    /// A discovery of which nothing has been done.
    pub open spec fn initial(prescribed_queues: Option<u64>) -> DiscoveryView {
        DiscoveryView {
            prescribed_queues,
            stage: Stage::SettingOwner,
            features: 0,
            device_id: 0,
            num_queues: 0,
            config_len: 0,
            queue_sizes: Seq::empty(),
        }
    }

    /// No queue is asked for before their number is known, and none twice.
    pub open spec fn wf(self) -> bool {
        match self.stage {
            Stage::ReadingQueueSizes => self.queue_sizes.len() < self.num_queues,
            Stage::Complete => self.queue_sizes.len() == self.num_queues,
            _ => self.queue_sizes.len() == 0,
        }
    }

    /// The number of the queue that is asked for next, in the 32 bits that a request has for it.
    pub open spec fn next_queue(self) -> u32 {
        (self.queue_sizes.len() % 0x1_0000_0000) as u32
    }

    /// The request that the front end sends at this stage.
    pub open spec fn request(self, e: Endian) -> Option<Request> {
        let asking = |code: u32, payload: Seq<u8>| Some(Request { code, payload, replied: true });
        match self.stage {
            Stage::SettingOwner => Some(
                Request { code: SET_OWNER, payload: Seq::empty(), replied: false },
            ),
            Stage::ReadingFeatures => asking(GET_FEATURES, Seq::empty()),
            Stage::ReadingProtocolFeatures => asking(GET_PROTOCOL_FEATURES, Seq::empty()),
            Stage::EnablingDiscovery => Some(
                Request {
                    code: SET_PROTOCOL_FEATURES,
                    payload: crate::bytes::to_bytes(e, DISCOVERY_FEATURE as nat, 8),
                    replied: false,
                },
            ),
            Stage::ReadingDeviceId => asking(DEVICE_ID, Seq::empty()),
            Stage::ReadingQueueNum => asking(QUEUE_NUM, Seq::empty()),
            Stage::ReadingConfigSize => asking(CONFIG_SIZE, Seq::empty()),
            Stage::ReadingQueueSizes => asking(
                QUEUE_SIZE,
                crate::requests::queue_size_payload(e, self.next_queue()),
            ),
            Stage::Complete => None,
        }
    }

    /// The discovery once a request that is not replied to has been sent.
    pub open spec fn after_sent(self) -> DiscoveryView {
        match self.stage {
            Stage::SettingOwner => DiscoveryView { stage: Stage::ReadingFeatures, ..self },
            Stage::EnablingDiscovery => DiscoveryView { stage: Stage::ReadingDeviceId, ..self },
            _ => self,
        }
    }

    /// The discovery once the back end has answered a request for a number with `x`.
    pub open spec fn after_number(self, x: u64) -> Result<DiscoveryView, Error> {
        match self.stage {
            Stage::ReadingFeatures => if crate::features::features(x).contains(
                F_PROTOCOL_FEATURES as int,
            ) {
                Ok(DiscoveryView { stage: Stage::ReadingProtocolFeatures, features: x, ..self })
            } else {
                Err(crate::error::refusal("protocol features are not supported"))
            },
            Stage::ReadingProtocolFeatures => if crate::features::features(x).contains(
                PROTOCOL_F_DISCOVERY as int,
            ) {
                Ok(DiscoveryView { stage: Stage::EnablingDiscovery, ..self })
            } else {
                Err(crate::error::refusal("discovery feature is not supported"))
            },
            Stage::ReadingDeviceId => {
                let device_id = (x % 0x1_0000_0000) as u32;
                Ok(
                    match self.prescribed_queues {
                        Some(n) => DiscoveryView {
                            stage: Stage::ReadingConfigSize,
                            device_id,
                            num_queues: n as usize,
                            ..self
                        },
                        None => DiscoveryView { stage: Stage::ReadingQueueNum, device_id, ..self },
                    },
                )
            },
            Stage::ReadingQueueNum => Ok(
                DiscoveryView { stage: Stage::ReadingConfigSize, num_queues: x as usize, ..self },
            ),
            Stage::ReadingConfigSize => Ok(
                DiscoveryView {
                    stage: if self.num_queues == 0 {
                        Stage::Complete
                    } else {
                        Stage::ReadingQueueSizes
                    },
                    config_len: x,
                    ..self
                },
            ),
            _ => Ok(self),
        }
    }

    /// The discovery once the back end has answered with the size of the queue asked for.
    pub open spec fn after_queue_size(self, size: u16) -> DiscoveryView {
        DiscoveryView {
            stage: if self.queue_sizes.len() + 1 == self.num_queues {
                Stage::Complete
            } else {
                Stage::ReadingQueueSizes
            },
            queue_sizes: self.queue_sizes.push(size),
            ..self
        }
    }

    /// The discovery once a reply has come in, or why the discovery fails.
    pub open spec fn after_reply(self, e: Endian, reply: Seq<u8>) -> Result<DiscoveryView, Error> {
        if self.stage is ReadingQueueSizes {
            match crate::requests::queue_size_in_reply(e, self.next_queue(), reply) {
                Ok(size) => Ok(self.after_queue_size(size)),
                Err(error) => Err(error),
            }
        } else {
            match crate::requests::u64_in_reply(e, reply) {
                Ok(x) => self.after_number(x),
                Err(error) => Err(error),
            }
        }
    }

    /// The discovery once the transfers of its request are over: a request that is not replied to
    /// has been sent, or the reply to it has come in.
    pub open spec fn after_transfer(self, e: Endian, reply: Seq<u8>) -> Result<
        DiscoveryView,
        Error,
    > {
        match self.request(e) {
            Some(request) => if request.replied {
                self.after_reply(e, reply)
            } else {
                Ok(self.after_sent())
            },
            None => Ok(self),
        }
    }
}

impl Discovery {
    /// Starts a discovery. With `num_queues` the back end is not asked how many queues it has.
    pub fn new(num_queues: Option<u64>) -> (discovery: Discovery)
        ensures
            discovery@ == DiscoveryView::initial(num_queues),
            discovery@.wf(),
    {
        Discovery {
            prescribed_queues: num_queues,
            stage: Stage::SettingOwner,
            features: 0,
            device_id: 0,
            num_queues: 0,
            config_len: 0,
            queue_sizes: Vec::new(),
        }
    }

    /// The request to send now, and the bytes to write for it; `None` when there is none left.
    pub fn request(&self, endian: Endian) -> (started: Option<(Exchange, Vec<u8>)>)
        ensures
            started is Some <==> self@.request(endian) is Some,
            started matches Some((exchange, bytes)) ==> self@.request(endian) matches Some(
                request,
            ) && {
                &&& exchange == (Exchange::Writing {
                    endian,
                    request: request.code,
                    expect: if request.replied {
                        crate::exchange::Expect::Data
                    } else {
                        crate::exchange::Expect::Nothing
                    },
                })
                &&& bytes@ == crate::exchange::message(
                    endian,
                    request.code,
                    crate::exchange::REQUEST_FLAGS,
                    request.payload,
                )
            },
    {
        let nothing: Vec<u8> = Vec::new();
        let none: &[u8] = nothing.as_slice();
        assert(none@ =~= Seq::<u8>::empty());
        match self.stage {
            Stage::SettingOwner => Some(Exchange::send_request(endian, SET_OWNER, none)),
            Stage::ReadingFeatures => Some(Exchange::send_and_recv(endian, GET_FEATURES, none)),
            Stage::ReadingProtocolFeatures => Some(
                Exchange::send_and_recv(endian, GET_PROTOCOL_FEATURES, none),
            ),
            Stage::EnablingDiscovery => {
                let word: Vec<u8> = encode(endian, DISCOVERY_FEATURE, 8);
                Some(Exchange::send_request(endian, SET_PROTOCOL_FEATURES, word.as_slice()))
            },
            Stage::ReadingDeviceId => Some(Exchange::send_and_recv(endian, DEVICE_ID, none)),
            Stage::ReadingQueueNum => Some(Exchange::send_and_recv(endian, QUEUE_NUM, none)),
            Stage::ReadingConfigSize => Some(Exchange::send_and_recv(endian, CONFIG_SIZE, none)),
            Stage::ReadingQueueSizes => {
                let payload: Vec<u8> = queue_size_request(endian, self.queue_number());
                Some(Exchange::send_and_recv(endian, QUEUE_SIZE, payload.as_slice()))
            },
            Stage::Complete => None,
        }
    }

    fn queue_number(&self) -> (vqn: u32)
        ensures
            vqn == self@.next_queue(),
    {
        (self.queue_sizes.len() as u64 % 0x1_0000_0000) as u32
    }

    /// Moves on after a request that is not replied to was sent.
    pub fn sent(&mut self)
        requires
            old(self).stage is SettingOwner || old(self).stage is EnablingDiscovery,
            old(self)@.wf(),
        ensures
            final(self)@ == old(self)@.after_sent(),
            final(self)@.wf(),
    {
        match self.stage {
            Stage::SettingOwner => {
                self.stage = Stage::ReadingFeatures;
            },
            _ => {
                self.stage = Stage::ReadingDeviceId;
            },
        }
    }

    /// Moves on after the reply to a request came in. A discovery that fails stays as it was.
    pub fn replied(&mut self, endian: Endian, reply: &[u8]) -> (outcome: Result<(), Error>)
        requires
            old(self)@.request(endian) matches Some(request) && request.replied,
            old(self)@.wf(),
        ensures
            match outcome {
                Ok(_) => old(self)@.after_reply(endian, reply@) == Ok::<DiscoveryView, Error>(
                    final(self)@,
                ),
                Err(error) => {
                    &&& old(self)@.after_reply(endian, reply@) == Err::<DiscoveryView, Error>(
                        error,
                    )
                    &&& *final(self) == *old(self)
                },
            },
            final(self)@.wf(),
    {
        match self.stage {
            Stage::ReadingQueueSizes => match get_queue_size(endian, self.queue_number(), reply) {
                Ok(size) => {
                    self.queue_sizes.push(size);
                    if self.queue_sizes.len() == self.num_queues {
                        self.stage = Stage::Complete;
                    }
                    Ok(())
                },
                Err(error) => Err(error),
            },
            _ => match get_u64(endian, reply) {
                Ok(x) => self.number_read(x),
                Err(error) => Err(error),
            },
        }
    }

    fn number_read(&mut self, x: u64) -> (outcome: Result<(), Error>)
        requires
            !(old(self).stage is ReadingQueueSizes),
            old(self)@.wf(),
        ensures
            match outcome {
                Ok(_) => old(self)@.after_number(x) == Ok::<DiscoveryView, Error>(final(self)@),
                Err(error) => {
                    &&& old(self)@.after_number(x) == Err::<DiscoveryView, Error>(error)
                    &&& *final(self) == *old(self)
                },
            },
            final(self)@.wf(),
    {
        match self.stage {
            Stage::ReadingFeatures => {
                if !has_feature(x, F_PROTOCOL_FEATURES) {
                    return Err(refused("protocol features are not supported"));
                }
                self.features = x;
                self.stage = Stage::ReadingProtocolFeatures;
            },
            Stage::ReadingProtocolFeatures => {
                if !has_feature(x, PROTOCOL_F_DISCOVERY) {
                    return Err(refused("discovery feature is not supported"));
                }
                self.stage = Stage::EnablingDiscovery;
            },
            Stage::ReadingDeviceId => {
                self.device_id = (x % 0x1_0000_0000) as u32;
                match self.prescribed_queues {
                    Some(n) => {
                        self.num_queues = n as usize;
                        self.stage = Stage::ReadingConfigSize;
                    },
                    None => {
                        self.stage = Stage::ReadingQueueNum;
                    },
                }
            },
            Stage::ReadingQueueNum => {
                self.num_queues = x as usize;
                self.stage = Stage::ReadingConfigSize;
            },
            Stage::ReadingConfigSize => {
                self.config_len = x;
                if self.num_queues == 0 {
                    self.stage = Stage::Complete;
                } else {
                    self.stage = Stage::ReadingQueueSizes;
                }
            },
            _ => {},
        }
        Ok(())
    }

    /// Moves on after the transfers of the present request are over: the request was written, and
    /// `reply` is the payload of the reply to it where one is awaited. A discovery that fails stays
    /// as it was.
    pub fn transferred(&mut self, endian: Endian, reply: &[u8]) -> (outcome: Result<(), Error>)
        requires
            old(self)@.request(endian) is Some,
            old(self)@.wf(),
        ensures
            match outcome {
                Ok(_) => old(self)@.after_transfer(endian, reply@) == Ok::<DiscoveryView, Error>(
                    final(self)@,
                ),
                Err(error) => {
                    &&& old(self)@.after_transfer(endian, reply@) == Err::<DiscoveryView, Error>(
                        error,
                    )
                    &&& *final(self) == *old(self)
                },
            },
            final(self)@.wf(),
    {
        match self.stage {
            Stage::SettingOwner | Stage::EnablingDiscovery => {
                self.sent();
                Ok(())
            },
            _ => self.replied(endian, reply),
        }
    }

    /// What the handler of the connection is created with once the discovery is complete. Packed
    /// rings are offered only if `base_features` holds them.
    pub fn handler_config(&self, base_features: u64) -> (config: HandlerConfig)
        requires
            self.stage is Complete,
        ensures
            config.queues_num == self.queue_sizes@.len(),
            crate::features::features(config.init_features) == crate::features::features(
                base_features,
            ).insert(F_PROTOCOL_FEATURES as int),
            crate::features::features(config.allow_features) == crate::features::features(
                config.init_features,
            ).union(
                crate::features::features(self.features).remove(F_RING_PACKED as int),
            ),
            crate::features::features(config.allow_protocol_features) == set![
                PROTOCOL_F_MQ as int,
                PROTOCOL_F_CONFIG as int,
                PROTOCOL_F_STATUS as int,
                PROTOCOL_F_REPLY_ACK as int,
            ],
            config.coherent(),
    {
        let init_features: u64 = with_feature(base_features, F_PROTOCOL_FEATURES);
        let allow_features: u64 = union(
            init_features,
            without_feature(self.features, F_RING_PACKED),
        );
        proof {
            crate::features::lemma_no_features();
        }
        let mq: u64 = with_feature(0, PROTOCOL_F_MQ);
        let config: u64 = with_feature(mq, PROTOCOL_F_CONFIG);
        let status: u64 = with_feature(config, PROTOCOL_F_STATUS);
        let allow_protocol_features: u64 = with_feature(status, PROTOCOL_F_REPLY_ACK);
        assert(crate::features::features(allow_protocol_features) =~= set![
            PROTOCOL_F_MQ as int,
            PROTOCOL_F_CONFIG as int,
            PROTOCOL_F_STATUS as int,
            PROTOCOL_F_REPLY_ACK as int,
        ]);
        HandlerConfig {
            queues_num: self.queue_sizes.len() as u64,
            allow_features,
            init_features,
            allow_protocol_features,
        }
    }
}

} // verus!
