//! What a discovery finds out about a back end that answers its requests.
use vstd::prelude::*;

use crate::bytes::Endian;
use crate::discovery::{Discovery, DiscoveryView, Stage, DISCOVERY_FEATURE};
use crate::error::Error;
use crate::features::{HandlerConfig, F_PROTOCOL_FEATURES, PROTOCOL_F_DISCOVERY};
use crate::requests::{
    CONFIG_SIZE, DEVICE_ID, GET_FEATURES, GET_PROTOCOL_FEATURES, QUEUE_NUM, QUEUE_SIZE, SET_OWNER,
    SET_PROTOCOL_FEATURES,
};

verus! {

/// A back end, by the answers that it gives.
pub struct BackEnd {
    pub features: u64,
    pub protocol_features: u64,
    pub device_id: u64,
    pub queue_num: u64,
    pub config_size: u64,
    pub queue_size: spec_fn(u32) -> u32,
}

impl BackEnd {
    /// Whether the back end can be discovered.
    pub open spec fn discoverable(self) -> bool {
        &&& crate::features::features(self.features).contains(F_PROTOCOL_FEATURES as int)
        &&& crate::features::features(self.protocol_features).contains(PROTOCOL_F_DISCOVERY as int)
    }

    /// The number that the back end answers at a stage that asks for one.
    pub open spec fn number(self, stage: Stage) -> u64 {
        match stage {
            Stage::ReadingFeatures => self.features,
            Stage::ReadingProtocolFeatures => self.protocol_features,
            Stage::ReadingDeviceId => self.device_id,
            Stage::ReadingQueueNum => self.queue_num,
            _ => self.config_size,
        }
    }

    /// The payload of the back end's reply to the request of `d`.
    pub open spec fn answer(self, e: Endian, d: DiscoveryView) -> Seq<u8> {
        if d.stage is ReadingQueueSizes {
            crate::exchange::word(e, d.next_queue()) + crate::exchange::word(
                e,
                (self.queue_size)(d.next_queue()),
            )
        } else {
            crate::bytes::to_bytes(e, self.number(d.stage) as nat, 8)
        }
    }

    /// `d` one request, and the reply to it if there is one, later.
    pub open spec fn step(self, e: Endian, d: DiscoveryView) -> Result<DiscoveryView, Error> {
        d.after_transfer(e, self.answer(e, d))
    }

    /// `d` as many requests later as `steps` says, or why it fails before.
    pub open spec fn run(self, e: Endian, d: DiscoveryView, steps: nat) -> Result<
        DiscoveryView,
        Error,
    >
        decreases steps,
    {
        if steps == 0 {
            Ok(d)
        } else {
            match self.step(e, d) {
                Ok(next) => self.run(e, next, (steps - 1) as nat),
                Err(error) => Err(error),
            }
        }
    }

    /// The number of queues of a device whose owner prescribes `prescribed` queues, or none.
    pub open spec fn queues(self, prescribed: Option<u64>) -> usize {
        match prescribed {
            Some(n) => n as usize,
            None => self.queue_num as usize,
        }
    }

    /// The sizes of the first `n` queues, as 16 bits hold them.
    pub open spec fn sizes(self, n: nat) -> Seq<u16> {
        Seq::new(
            n,
            |i: int|
                ((self.queue_size)((i % 0x1_0000_0000) as u32) % 0x1_0000) as u16,
        )
    }

    /// What a discovery finds when it is complete.
    pub open spec fn found(self, prescribed: Option<u64>) -> DiscoveryView {
        DiscoveryView {
            prescribed_queues: prescribed,
            stage: Stage::Complete,
            features: self.features,
            device_id: (self.device_id % 0x1_0000_0000) as u32,
            num_queues: self.queues(prescribed),
            config_len: self.config_size,
            queue_sizes: self.sizes(self.queues(prescribed) as nat),
        }
    }

    /// How many requests a discovery sends before it asks for the queues one by one.
    pub open spec fn requests_before_queues(prescribed: Option<u64>) -> nat {
        if prescribed is Some {
            6
        } else {
            7
        }
    }

    /// The code of request number `k` of a discovery, counted from zero.
    pub open spec fn request_code(prescribed: Option<u64>, k: nat) -> u32 {
        if k == 0 {
            SET_OWNER
        } else if k == 1 {
            GET_FEATURES
        } else if k == 2 {
            GET_PROTOCOL_FEATURES
        } else if k == 3 {
            SET_PROTOCOL_FEATURES
        } else if k == 4 {
            DEVICE_ID
        } else if k == 5 && prescribed is None {
            QUEUE_NUM
        } else if k < Self::requests_before_queues(prescribed) {
            CONFIG_SIZE
        } else {
            QUEUE_SIZE
        }
    }

    /// How many requests a discovery takes.
    pub open spec fn requests(self, prescribed: Option<u64>) -> nat {
        Self::requests_before_queues(prescribed) + self.queues(prescribed) as nat
    }
}

proof fn lemma_number_step(b: BackEnd, e: Endian, d: DiscoveryView)
    requires
        d.request(e) matches Some(request) && request.replied,
        !(d.stage is ReadingQueueSizes),
    ensures
        b.step(e, d) == d.after_number(b.number(d.stage)),
{
    crate::requests::law_u64_read_back(e, b.number(d.stage));
}

/// The discovery that is about to ask for the queues.
spec fn before_queues(b: BackEnd, prescribed: Option<u64>) -> DiscoveryView {
    DiscoveryView {
        stage: if b.queues(prescribed) == 0 {
            Stage::Complete
        } else {
            Stage::ReadingQueueSizes
        },
        queue_sizes: Seq::empty(),
        ..b.found(prescribed)
    }
}

proof fn lemma_queues_run(b: BackEnd, e: Endian, d: DiscoveryView, k: nat)
    requires
        d.stage is ReadingQueueSizes,
        d.queue_sizes.len() + k <= d.num_queues,
        d.queue_sizes.len() < d.num_queues,
        d.queue_sizes == b.sizes(d.queue_sizes.len()),
    ensures
        b.run(e, d, k) == Ok::<DiscoveryView, Error>(
            DiscoveryView {
                stage: if d.queue_sizes.len() + k == d.num_queues {
                    Stage::Complete
                } else {
                    Stage::ReadingQueueSizes
                },
                queue_sizes: b.sizes(d.queue_sizes.len() + k),
                ..d
            },
        ),
    decreases k,
{
    if k > 0 {
        let vqn: u32 = d.next_queue();
        let size: u16 = ((b.queue_size)(vqn) % 0x1_0000) as u16;
        crate::requests::law_queue_size_read_back(e, vqn, vqn, (b.queue_size)(vqn));
        let next = d.after_queue_size(size);
        assert(b.step(e, d) == Ok::<DiscoveryView, Error>(next));
        assert(next.queue_sizes =~= b.sizes(next.queue_sizes.len()));
        if k > 1 {
            lemma_queues_run(b, e, next, (k - 1) as nat);
        } else {
            assert(b.run(e, next, 0) == Ok::<DiscoveryView, Error>(next));
        }
    }
}

/// The discovery after `k` requests, where `k` is not beyond the queues: follows the stages one
/// by one up to the queues, and from there lets `lemma_queues_run` go on.
proof fn lemma_run(b: BackEnd, e: Endian, prescribed: Option<u64>, k: nat)
    requires
        b.discoverable(),
        k <= b.requests(prescribed),
    ensures
        b.run(e, DiscoveryView::initial(prescribed), k) matches Ok(d) && {
            let first = BackEnd::requests_before_queues(prescribed);
            &&& k < first ==> (d.request(e) matches Some(request) && request.code
                == BackEnd::request_code(prescribed, k))
            &&& k >= first ==> d == (DiscoveryView {
                stage: if k == b.requests(prescribed) {
                    Stage::Complete
                } else {
                    Stage::ReadingQueueSizes
                },
                queue_sizes: b.sizes((k - first) as nat),
                ..b.found(prescribed)
            })
        },
{
    let first: nat = BackEnd::requests_before_queues(prescribed);
    let d0 = DiscoveryView::initial(prescribed);
    let d1 = d0.after_sent();
    lemma_number_step(b, e, d1);
    let d2 = DiscoveryView { stage: Stage::ReadingProtocolFeatures, features: b.features, ..d1 };
    lemma_number_step(b, e, d2);
    let d3 = DiscoveryView { stage: Stage::EnablingDiscovery, ..d2 };
    let d4 = d3.after_sent();
    lemma_number_step(b, e, d4);
    let d5 = d4.after_number(b.device_id)->Ok_0;
    let d6 = match prescribed {
        Some(_) => d5,
        None => {
            lemma_number_step(b, e, d5);
            d5.after_number(b.queue_num)->Ok_0
        },
    };
    lemma_number_step(b, e, d6);
    let d7 = before_queues(b, prescribed);
    assert(b.step(e, d6) == Ok::<DiscoveryView, Error>(d7));
    reveal_with_fuel(BackEnd::run, 8);
    if k >= first {
        let asked: nat = (k - first) as nat;
        assert(b.run(e, d0, k) == b.run(e, d7, asked));
        assert(d7.queue_sizes =~= b.sizes(0));
        if b.queues(prescribed) > 0 {
            lemma_queues_run(b, e, d7, asked);
        }
    }
}

/// A discovery of a back end that can be discovered is complete after one request for each thing
/// to learn, and has then found exactly what the back end answered: the device's type and the
/// queue sizes cut to 32 and 16 bits, the size of the configuration space and the features as
/// they are, and as many queues as the owner prescribes or else the back end has.
pub proof fn law_discovery_finds_the_device(b: BackEnd, e: Endian, prescribed: Option<u64>)
    requires
        b.discoverable(),
    ensures
        b.run(e, DiscoveryView::initial(prescribed), b.requests(prescribed)) == Ok::<
            DiscoveryView,
            Error,
        >(b.found(prescribed)),
{
    lemma_run(b, e, prescribed, b.requests(prescribed));
}

/// The requests of a discovery go out in a fixed order: the connection is claimed, the discovery
/// requests are enabled before any of them is sent, and the queues are asked for last, each once
/// and in order.
pub proof fn law_discovery_request_order(b: BackEnd, e: Endian, prescribed: Option<u64>, k: nat)
    requires
        b.discoverable(),
        k < b.requests(prescribed),
    ensures
        b.run(e, DiscoveryView::initial(prescribed), k) matches Ok(d) && d.request(e) matches Some(
            request,
        ) && {
            let first = BackEnd::requests_before_queues(prescribed);
            &&& request.code == BackEnd::request_code(prescribed, k)
            &&& k >= first ==> request.payload == crate::requests::queue_size_payload(
                e,
                ((k - first) % 0x1_0000_0000) as u32,
            )
        },
{
    lemma_run(b, e, prescribed, k);
}

/// A back end without protocol features is refused at the second request, one without the
/// discovery requests at the third, whatever else it would answer.
pub proof fn law_undiscoverable_back_end_refused(
    b: BackEnd,
    e: Endian,
    prescribed: Option<u64>,
    steps: nat,
)
    requires
        !b.discoverable(),
        steps >= 3,
    ensures
        b.run(e, DiscoveryView::initial(prescribed), steps) == Err::<DiscoveryView, Error>(
            if !crate::features::features(b.features).contains(F_PROTOCOL_FEATURES as int) {
                crate::error::refusal("protocol features are not supported")
            } else {
                crate::error::refusal("discovery feature is not supported")
            },
        ),
{
    let d0 = DiscoveryView::initial(prescribed);
    let d1 = d0.after_sent();
    lemma_number_step(b, e, d1);
    assert(b.run(e, d0, steps) == b.run(e, d1, (steps - 1) as nat));
    if crate::features::features(b.features).contains(F_PROTOCOL_FEATURES as int) {
        let d2 = DiscoveryView {
            stage: Stage::ReadingProtocolFeatures,
            features: b.features,
            ..d1
        };
        lemma_number_step(b, e, d2);
        assert(b.run(e, d1, (steps - 1) as nat) == b.run(e, d2, (steps - 2) as nat));
    }
}

/// The word that enables discovery holds that protocol feature and no other.
pub proof fn law_discovery_word()
    ensures
        crate::features::features(DISCOVERY_FEATURE) == set![PROTOCOL_F_DISCOVERY as int],
{
    crate::features::lemma_single(PROTOCOL_F_DISCOVERY);
    assert(1u64 << 40u32 == 0x100_0000_0000u64) by (bit_vector);
}

/// What a discovery under way asks for, at every stage: the code of its request, whether a reply is
/// awaited, and what the payload holds. Only the request that enables discovery and those for the
/// queues carry anything: the one the protocol feature with number 40 alone, the others the number
/// of the first queue that is not known.
pub proof fn law_discovery_requests(d: DiscoveryView, e: Endian)
    ensures
        d.request(e) is None <==> d.stage == Stage::Complete,
        d.request(e) matches Some(request) ==> {
            &&& request.code == match d.stage {
                Stage::SettingOwner => 3u32,
                Stage::ReadingFeatures => 1,
                Stage::ReadingProtocolFeatures => 15,
                Stage::EnablingDiscovery => 16,
                Stage::ReadingDeviceId => 5057,
                Stage::ReadingQueueNum => 5059,
                Stage::ReadingConfigSize => 5058,
                _ => 5060,
            }
            &&& !request.replied <==> d.stage == Stage::SettingOwner || d.stage
                == Stage::EnablingDiscovery
            &&& d.stage != Stage::EnablingDiscovery && d.stage != Stage::ReadingQueueSizes
                <==> request.payload.len() == 0
            &&& d.stage == Stage::EnablingDiscovery ==> request.payload.len() == 8
                && crate::bytes::from_bytes(e, request.payload) == 0x100_0000_0000
            &&& d.stage == Stage::ReadingQueueSizes ==> {
                &&& request.payload.len() == 8
                &&& crate::bytes::from_bytes(e, request.payload.subrange(0, 4))
                    == d.queue_sizes.len() % 0x1_0000_0000
                &&& forall|i: int| 4 <= i < 8 ==> request.payload[i] == 0
            }
        },
{
    crate::bytes::lemma_span();
    crate::bytes::lemma_to_bytes_len(e, DISCOVERY_FEATURE as nat, 8);
    crate::bytes::law_decode_encode(e, DISCOVERY_FEATURE as nat, 8);
    crate::requests::law_queue_size_request_layout(e, d.next_queue());
}

/// Nothing but the stage changes when a request that is not replied to is over, whatever was read
/// last: once the connection is claimed the features are asked for, and once the discovery requests
/// are enabled the device's type is.
pub proof fn law_unanswered_requests_lead_on(d: DiscoveryView, e: Endian, reply: Seq<u8>)
    requires
        d.stage == Stage::SettingOwner || d.stage == Stage::EnablingDiscovery,
    ensures
        d.after_transfer(e, reply) matches Ok(next) && {
            &&& d.stage == Stage::SettingOwner <==> next.stage == Stage::ReadingFeatures
            &&& d.stage == Stage::EnablingDiscovery <==> next.stage == Stage::ReadingDeviceId
            &&& next.prescribed_queues == d.prescribed_queues
            &&& next.features == d.features
            &&& next.device_id == d.device_id
            &&& next.num_queues == d.num_queues
            &&& next.config_len == d.config_len
            &&& next.queue_sizes == d.queue_sizes
        },
{
}

/// Which back ends a discovery goes on with: a reply of eight bytes is taken when the number that
/// it decodes to has bit 30, for the device features, or bit 40, for the protocol features, and
/// is refused otherwise. Only the device features are kept.
pub proof fn law_features_decide(d: DiscoveryView, e: Endian, reply: Seq<u8>)
    requires
        d.stage == Stage::ReadingFeatures || d.stage == Stage::ReadingProtocolFeatures,
    ensures
        ({
            let x = crate::bytes::from_bytes(e, reply);
            let first = d.stage == Stage::ReadingFeatures;
            let bit: nat = if first {
                0x4000_0000
            } else {
                0x100_0000_0000
            };
            match d.after_transfer(e, reply) {
                Ok(next) => {
                    &&& reply.len() == 8
                    &&& (x / bit) % 2 == 1
                    &&& first <==> next.stage == Stage::ReadingProtocolFeatures
                    &&& !first <==> next.stage == Stage::EnablingDiscovery
                    &&& first ==> next.features == x
                    &&& !first ==> next.features == d.features
                    &&& next.prescribed_queues == d.prescribed_queues
                    &&& next.device_id == d.device_id
                    &&& next.num_queues == d.num_queues
                    &&& next.config_len == d.config_len
                    &&& next.queue_sizes == d.queue_sizes
                },
                Err(error) => if reply.len() != 8 {
                    error == crate::error::refusal("wrong reply, expected u64")
                } else {
                    &&& (x / bit) % 2 == 0
                    &&& first ==> error == crate::error::refusal(
                        "protocol features are not supported",
                    )
                    &&& !first ==> error == crate::error::refusal(
                        "discovery feature is not supported",
                    )
                },
            }
        }),
{
    crate::requests::law_u64_reply_taken(e, reply);
    if reply.len() == 8 {
        let x: u64 = crate::requests::u64_in_reply(e, reply)->Ok_0;
        crate::features::law_feature_is_its_bit(x, x, 30);
        crate::features::law_feature_is_its_bit(x, x, 40);
        assert((x & (1u64 << 30u64) != 0 <==> (x / 0x4000_0000u64) % 2 == 1) && (x & (1u64
            << 40u64) != 0 <==> (x / 0x100_0000_0000u64) % 2 == 1)) by (bit_vector);
    }
}

/// What each number that a back end answers is taken for, for every reply of eight bytes: the
/// device's type, cut to 32 bits; the number of queues, which is asked for only where the owner
/// prescribes none; and the size of the configuration space. All else that was found stays. Without
/// queues the discovery is complete then. A reply of another length is refused.
pub proof fn law_numbers_are_kept(d: DiscoveryView, e: Endian, reply: Seq<u8>)
    requires
        d.stage == Stage::ReadingDeviceId || d.stage == Stage::ReadingQueueNum || d.stage
            == Stage::ReadingConfigSize,
    ensures
        ({
            let x = crate::bytes::from_bytes(e, reply);
            let typed = d.stage == Stage::ReadingDeviceId;
            let counted = d.stage == Stage::ReadingQueueNum;
            let sized = d.stage == Stage::ReadingConfigSize;
            match d.after_transfer(e, reply) {
                Ok(next) => {
                    &&& reply.len() == 8
                    &&& next.device_id == if typed {
                        x % 0x1_0000_0000
                    } else {
                        d.device_id as nat
                    }
                    &&& next.config_len == if sized {
                        x
                    } else {
                        d.config_len as nat
                    }
                    &&& counted && x <= usize::MAX ==> next.num_queues == x
                    &&& counted ==> next.num_queues as int % 0x1_0000_0000 == x as int
                        % 0x1_0000_0000
                    &&& typed ==> match d.prescribed_queues {
                        Some(n) => {
                            &&& n <= usize::MAX ==> next.num_queues == n
                            &&& next.num_queues as int % 0x1_0000_0000 == n as int % 0x1_0000_0000
                        },
                        None => next.num_queues == d.num_queues,
                    }
                    &&& sized ==> next.num_queues == d.num_queues
                    &&& next.stage == Stage::ReadingQueueNum <==> typed && d.prescribed_queues
                        is None
                    &&& next.stage == Stage::ReadingConfigSize <==> counted || typed
                        && d.prescribed_queues is Some
                    &&& next.stage == Stage::Complete <==> sized && d.num_queues == 0
                    &&& next.stage == Stage::ReadingQueueSizes <==> sized && d.num_queues != 0
                    &&& next.prescribed_queues == d.prescribed_queues
                    &&& next.features == d.features
                    &&& next.queue_sizes == d.queue_sizes
                },
                Err(error) => reply.len() != 8 && error == crate::error::refusal(
                    "wrong reply, expected u64",
                ),
            }
        }),
{
    crate::requests::law_u64_reply_taken(e, reply);
    if reply.len() == 8 {
        lemma_cut_to_usize(crate::requests::u64_in_reply(e, reply)->Ok_0);
        if d.prescribed_queues is Some {
            lemma_cut_to_usize(d.prescribed_queues->Some_0);
        }
    }
}

proof fn lemma_cut_to_usize(x: u64)
    ensures
        (x as usize) as int % 0x1_0000_0000 == x as int % 0x1_0000_0000,
{
    assert((x as usize) as int % 0x1_0000_0000 == x as int % 0x1_0000_0000) by (bit_vector);
}

/// How the queues become known, for every reply: one that names the queue that was asked for, which
/// is the first that is not known, adds its size behind those that are, cut to 16 bits, and leaves
/// all else alone; any other is refused. The discovery is complete exactly with the last queue.
pub proof fn law_queues_found_in_order(d: DiscoveryView, e: Endian, reply: Seq<u8>)
    requires
        d.stage == Stage::ReadingQueueSizes,
    ensures
        ({
            let named = reply.len() == 8 && crate::bytes::from_bytes(e, reply.subrange(0, 4))
                == d.queue_sizes.len() % 0x1_0000_0000;
            match d.after_transfer(e, reply) {
                Ok(next) => {
                    &&& named
                    &&& next.queue_sizes.len() == d.queue_sizes.len() + 1
                    &&& next.queue_sizes.take(d.queue_sizes.len() as int) == d.queue_sizes
                    &&& next.queue_sizes.last() == crate::bytes::from_bytes(
                        e,
                        reply.subrange(4, 8),
                    ) % 0x1_0000
                    &&& next.stage == Stage::Complete <==> next.queue_sizes.len() == d.num_queues
                    &&& next.stage == Stage::ReadingQueueSizes <==> next.queue_sizes.len()
                        != d.num_queues
                    &&& next.prescribed_queues == d.prescribed_queues
                    &&& next.features == d.features
                    &&& next.device_id == d.device_id
                    &&& next.num_queues == d.num_queues
                    &&& next.config_len == d.config_len
                },
                Err(error) => {
                    &&& !named
                    &&& reply.len() != 8 ==> error == crate::error::refusal("wrong reply size")
                    &&& reply.len() == 8 ==> error == crate::error::refusal(
                        "wrong queue num in reply",
                    )
                },
            }
        }),
{
    crate::requests::law_queue_size_reply_taken(e, d.next_queue(), reply);
    if let Ok(next) = d.after_transfer(e, reply) {
        assert(next.queue_sizes.take(d.queue_sizes.len() as int) =~= d.queue_sizes);
    }
}

/// Where a discovery starts: it claims the connection, keeps how many queues its owner prescribes,
/// and knows nothing else. Once it is complete it stays as it is.
pub proof fn law_discovery_starts_and_ends(
    prescribed: Option<u64>,
    d: DiscoveryView,
    e: Endian,
    reply: Seq<u8>,
)
    ensures
        DiscoveryView::initial(prescribed).stage == Stage::SettingOwner,
        DiscoveryView::initial(prescribed).prescribed_queues == prescribed,
        DiscoveryView::initial(prescribed).queue_sizes.len() == 0,
        DiscoveryView::initial(prescribed).num_queues == 0,
        DiscoveryView::initial(prescribed).features == 0,
        DiscoveryView::initial(prescribed).device_id == 0,
        DiscoveryView::initial(prescribed).config_len == 0,
        d.stage == Stage::Complete ==> d.after_transfer(e, reply) == Ok::<DiscoveryView, Error>(d),
{
}

/// Every discovery that is reached in order has, once it is complete, the size of each of its
/// queues and of no more; one that still asks for queues knows fewer than there are; and before
/// that none is known.
pub proof fn law_reached_discovery_counts_its_queues(
    d: DiscoveryView,
    e: Endian,
    reply: Seq<u8>,
    prescribed: Option<u64>,
)
    ensures
        DiscoveryView::initial(prescribed).wf(),
        d.wf() && d.after_transfer(e, reply) is Ok ==> d.after_transfer(e, reply)->Ok_0.wf(),
        d.wf() && d.stage == Stage::Complete ==> d.queue_sizes.len() == d.num_queues,
        d.wf() && d.stage == Stage::ReadingQueueSizes ==> d.queue_sizes.len() < d.num_queues,
        d.wf() && d.stage != Stage::Complete && d.stage != Stage::ReadingQueueSizes
            ==> d.queue_sizes.len() == 0,
{
}

/// What a discovery of a back end with bit 30 among its features and bit 40 among its protocol
/// features has found after six requests, or seven where the number of queues is asked for too, and
/// one more for each queue.
pub proof fn law_discovery_outcome(
    b: BackEnd,
    e: Endian,
    prescribed: Option<u64>,
    queues: usize,
    requests: nat,
)
    requires
        crate::features::features(b.features).contains(30),
        crate::features::features(b.protocol_features).contains(40),
        prescribed matches Some(n) ==> queues == n as usize && requests == 6 + queues,
        prescribed is None ==> queues == b.queue_num as usize && requests == 7 + queues,
    ensures
        b.run(e, DiscoveryView::initial(prescribed), requests) matches Ok(d) && {
            &&& d.stage == Stage::Complete
            &&& d.prescribed_queues == prescribed
            &&& d.features == b.features
            &&& d.device_id as int == b.device_id as int % 0x1_0000_0000
            &&& d.config_len == b.config_size
            &&& d.num_queues == queues
            &&& d.queue_sizes.len() == queues
            &&& forall|i: int|
                0 <= i < queues ==> #[trigger] d.queue_sizes[i] as int == (b.queue_size)(
                    (i % 0x1_0000_0000) as u32,
                ) as int % 0x1_0000
        },
{
    law_discovery_finds_the_device(b, e, prescribed);
}

/// A transfer is over either when the request has been sent or when the reply has come in, as the
/// request says, and leads where that alone would lead.
pub proof fn law_transfer_is_sending_or_replying(d: DiscoveryView, e: Endian, reply: Seq<u8>)
    requires
        d.stage != Stage::Complete,
    ensures
        d.stage == Stage::SettingOwner || d.stage == Stage::EnablingDiscovery ==> d.after_transfer(
            e,
            reply,
        ) == Ok::<DiscoveryView, Error>(d.after_sent()),
        d.stage != Stage::SettingOwner && d.stage != Stage::EnablingDiscovery ==> d.after_transfer(
            e,
            reply,
        ) == d.after_reply(e, reply),
{
}

proof fn lemma_protocol_features(n: int)
    ensures
        crate::features::features(0x1_0209).contains(n) <==> n == 0 || n == 3 || n == 9 || n == 16,
{
    crate::features::law_feature_is_its_bit(0x1_0209, 0x1_0209, n);
    if 0 <= n < 64 {
        let m: u64 = n as u64;
        assert(m < 64 ==> (0x1_0209u64 & (1u64 << m) != 0 <==> m == 0 || m == 3 || m == 9
            || m == 16)) by (bit_vector);
    }
}

/// What a complete discovery creates its handler with, in words: bit 30 is added to whatever
/// `base_features` holds, and the back end's features but bit 34 may be offered on top of that. The
/// handler may use four protocol features, and has as many queues as were found.
pub proof fn law_handler_config_words(d: Discovery, base_features: u64, config: HandlerConfig)
    requires
        d.stage == Stage::Complete,
        call_ensures(Discovery::handler_config, (&d, base_features), config),
    ensures
        config.queues_num == d.queue_sizes@.len(),
        config.init_features == base_features | 0x4000_0000,
        config.allow_features == base_features | 0x4000_0000 | (d.features & !0x4_0000_0000u64),
        config.allow_protocol_features == 0x1_0209,
{
    let kept: u64 = d.features & !0x4_0000_0000u64;
    crate::features::lemma_no_features();
    assert(1u64 << 30u32 == 0x4000_0000u64) by (bit_vector);
    crate::features::lemma_single(30);
    assert forall|n: int| #[trigger]
        crate::features::features(kept).contains(n) <==> crate::features::features(
            d.features,
        ).contains(n) && n != 34 by {
        let x: u64 = d.features;
        crate::features::law_feature_is_its_bit(kept, kept, n);
        crate::features::law_feature_is_its_bit(x, x, n);
        if 0 <= n < 64 {
            let m: u64 = n as u64;
            assert(m < 64 ==> ((x & !0x4_0000_0000u64) & (1u64 << m) != 0 <==> x & (1u64 << m) != 0
                && m != 34)) by (bit_vector);
        }
    }
    assert forall|n: int| #[trigger]
        crate::features::features(config.init_features).contains(n)
            <==> crate::features::features(base_features).contains(n)
            || crate::features::features(0x4000_0000).contains(n) by {}
    assert forall|n: int| #[trigger]
        crate::features::features(config.allow_features).contains(n)
            <==> crate::features::features(config.init_features).contains(n)
            || crate::features::features(kept).contains(n) by {}
    assert forall|n: int| #[trigger]
        crate::features::features(config.allow_protocol_features).contains(n)
            <==> crate::features::features(0).contains(n) || crate::features::features(
            0x1_0209,
        ).contains(n) by {
        lemma_protocol_features(n);
    }
    crate::features::lemma_joined(config.init_features, base_features, 0x4000_0000);
    crate::features::lemma_joined(config.allow_features, config.init_features, kept);
    crate::features::lemma_joined(config.allow_protocol_features, 0, 0x1_0209);
    assert(0u64 | 0x1_0209u64 == 0x1_0209u64) by (bit_vector);
}

/// The bytes that a discovery under way sends, at every stage: the code of its request, the flags
/// 1, and the request's payload. A header is read next exactly where a reply is awaited.
pub proof fn law_discovery_messages(
    d: Discovery,
    e: Endian,
    started: Option<(crate::exchange::Exchange, Vec<u8>)>,
)
    requires
        call_ensures(Discovery::request, (&d, e), started),
    ensures
        started is None <==> d.stage == Stage::Complete,
        started matches Some((exchange, bytes)) ==> d@.request(e) matches Some(request) && {
            &&& crate::bytes::from_bytes(e, bytes@.subrange(0, 4)) == request.code
            &&& crate::bytes::from_bytes(e, bytes@.subrange(4, 8)) == 1
            &&& bytes@.skip(12) == request.payload
            &&& d.stage == Stage::SettingOwner || d.stage == Stage::EnablingDiscovery
                ==> exchange.after_written() == crate::exchange::Exchange::Done
            &&& d.stage != Stage::SettingOwner && d.stage != Stage::EnablingDiscovery
                ==> exchange.after_written().wanted() == Some(12usize)
        },
{
    law_discovery_requests(d@, e);
    if let Some(request) = d@.request(e) {
        crate::exchange::law_message_layout(e, request.code, 1, request.payload);
    }
}

} // verus!
