//! Fragmentation of oversize commands: a command whose serialization fits
//! in one original body is sent whole; anything larger is cut into chunks
//! of at most `MAX_SPLIT_BODY_SIZE` bytes sharing one split sequence number.

use vstd::prelude::*;

use crate::wire::command::Command;
use crate::wire::packet::InnerBody;
use crate::wire::packet::OriginalBody;
use crate::wire::packet::SplitBody;
use crate::wire::packet::MAX_ORIGINAL_BODY_SIZE;
use crate::wire::packet::MAX_SPLIT_BODY_SIZE;
use crate::wire::packet::SEQNUM_INITIAL;
use crate::wire::ser::Serialize;
use crate::wire::ser::SerializeError;
use crate::wire::ser::VecSerializer;
use crate::wire::types::ProtocolContext;

verus! {

pub struct SplitSender {
    /// The next split sequence number; it advances only when a command is
    /// actually split.
    pub next_seqnum: u64,
}

/// How many chunks a payload of `n` bytes needs: the ceiling of n / 495.
pub open spec fn chunk_count_of(n: int) -> int {
    (n + MAX_SPLIT_BODY_SIZE - 1) / (MAX_SPLIT_BODY_SIZE as int)
}

/// The data of chunk `i` of payload `data`.
pub open spec fn chunk_data_of(data: Seq<u8>, i: int) -> Seq<u8> {
    data.subrange(
        i * (MAX_SPLIT_BODY_SIZE as int),
        if (i + 1) * (MAX_SPLIT_BODY_SIZE as int) <= data.len() {
            (i + 1) * (MAX_SPLIT_BODY_SIZE as int)
        } else {
            data.len() as int
        },
    )
}

impl SplitSender {
    pub fn new(remote_is_server: bool) -> (r: Self)
        ensures
            r.next_seqnum == SEQNUM_INITIAL as u64,
    {
        SplitSender { next_seqnum: SEQNUM_INITIAL as u64 }
    }

    /// Turn one command into the inner bodies that carry it: one original
    /// body when its encoding fits, else exactly `ceil(len / 495)` split
    /// bodies that cover the encoding contiguously and in order.
    pub fn push(&mut self, context: ProtocolContext, command: Command) -> (r: Result<
        Vec<InnerBody>,
        SerializeError,
    >)
        ensures
            r is Ok <==> command.ser_wf(context) && command.enc(context).len() <= 0xFFFF
                * MAX_SPLIT_BODY_SIZE,
            r matches Ok(bodies) ==> ({
                let data = command.enc(context);
                if data.len() <= MAX_ORIGINAL_BODY_SIZE {
                    bodies@ =~= seq![InnerBody::Original(OriginalBody { command })] && *final(self)
                        == *old(self)
                } else {
                    &&& bodies@.len() == chunk_count_of(data.len() as int)
                    &&& forall|i: int|
                        0 <= i < bodies@.len() ==> #[trigger] bodies@[i] == InnerBody::Split(
                            SplitBody {
                                seqnum: (old(self).next_seqnum % 65536) as u16,
                                chunk_count: bodies@.len() as u16,
                                chunk_num: i as u16,
                                chunk_data: bodies@[i]->Split_0.chunk_data,
                            },
                        ) && bodies@[i]->Split_0.chunk_data@ == chunk_data_of(data, i)
                    &&& (old(self).next_seqnum < u64::MAX ==> final(self).next_seqnum
                        == old(self).next_seqnum + 1)
                }
            }),
    {
        let ghost data = command.enc(context);
        let mut ser = VecSerializer::new(context, 512);
        match command.serialize(&mut ser) {
            Ok(_) => {},
            Err(e) => {
                return Err(e);
            },
        }
        let buf = ser.take();
        let total_size = buf.len();
        if total_size <= MAX_ORIGINAL_BODY_SIZE {
            let mut result: Vec<InnerBody> = Vec::new();
            result.push(InnerBody::Original(OriginalBody { command }));
            assert(result@ =~= seq![InnerBody::Original(OriginalBody { command })]);
            return Ok(result);
        }
        if total_size > 0xFFFF * MAX_SPLIT_BODY_SIZE {
            return Err(SerializeError::InvalidValue);
        }
        let total_chunks = (total_size + MAX_SPLIT_BODY_SIZE - 1) / MAX_SPLIT_BODY_SIZE;
        let seqnum = (self.next_seqnum % 65536) as u16;
        let mut result: Vec<InnerBody> = Vec::new();
        let mut index: usize = 0;
        let mut offset: usize = 0;
        while index < total_chunks
            invariant
                total_chunks == chunk_count_of(total_size as int),
                total_size == buf@.len(),
                buf@ == data,
                MAX_ORIGINAL_BODY_SIZE < total_size <= 0xFFFF * MAX_SPLIT_BODY_SIZE,
                index <= total_chunks,
                offset == index * MAX_SPLIT_BODY_SIZE,
                result@.len() == index,
                forall|i: int|
                    0 <= i < index ==> #[trigger] result@[i] == InnerBody::Split(
                        SplitBody {
                            seqnum,
                            chunk_count: total_chunks as u16,
                            chunk_num: i as u16,
                            chunk_data: result@[i]->Split_0.chunk_data,
                        },
                    ) && result@[i]->Split_0.chunk_data@ == chunk_data_of(data, i),
            decreases total_chunks - index,
        {
            proof {
                assert(index * MAX_SPLIT_BODY_SIZE < total_size) by (nonlinear_arith)
                    requires
                        index < total_chunks,
                        total_chunks == (total_size + MAX_SPLIT_BODY_SIZE - 1) / (
                        MAX_SPLIT_BODY_SIZE as int),
                        total_size > 0,
                        MAX_SPLIT_BODY_SIZE == 495,
                ;
                assert((index + 1) * MAX_SPLIT_BODY_SIZE == index * MAX_SPLIT_BODY_SIZE
                    + MAX_SPLIT_BODY_SIZE) by (nonlinear_arith);
                assert(index * MAX_SPLIT_BODY_SIZE <= total_chunks * MAX_SPLIT_BODY_SIZE
                    <= 0xFFFF * MAX_SPLIT_BODY_SIZE + MAX_SPLIT_BODY_SIZE) by (nonlinear_arith)
                    requires
                        index <= total_chunks,
                        total_chunks == (total_size + MAX_SPLIT_BODY_SIZE - 1) / (
                        MAX_SPLIT_BODY_SIZE as int),
                        total_size <= 0xFFFF * MAX_SPLIT_BODY_SIZE,
                        MAX_SPLIT_BODY_SIZE == 495,
                ;
            }
            let end = if offset + MAX_SPLIT_BODY_SIZE <= total_size {
                offset + MAX_SPLIT_BODY_SIZE
            } else {
                total_size
            };
            let mut chunk: Vec<u8> = Vec::new();
            let mut j: usize = offset;
            while j < end
                invariant
                    offset <= j <= end <= buf@.len(),
                    chunk@ == buf@.subrange(offset as int, j as int),
                decreases end - j,
            {
                chunk.push(buf[j]);
                j = j + 1;
                assert(chunk@ =~= buf@.subrange(offset as int, j as int));
            }
            proof {
                assert(total_chunks <= 0xFFFF) by (nonlinear_arith)
                    requires
                        total_chunks == (total_size + MAX_SPLIT_BODY_SIZE - 1) / (
                        MAX_SPLIT_BODY_SIZE as int),
                        total_size <= 0xFFFF * MAX_SPLIT_BODY_SIZE,
                        MAX_SPLIT_BODY_SIZE == 495,
                ;
                assert(chunk@ =~= chunk_data_of(data, index as int));
            }
            let ghost ch = chunk@;
            result.push(
                InnerBody::Split(
                    SplitBody {
                        seqnum,
                        chunk_count: total_chunks as u16,
                        chunk_num: index as u16,
                        chunk_data: chunk,
                    },
                ),
            );
            proof {
                assert(result@[index as int]->Split_0.chunk_data@ == ch);
                assert(result@[index as int] == InnerBody::Split(
                    SplitBody {
                        seqnum,
                        chunk_count: total_chunks as u16,
                        chunk_num: index as u16,
                        chunk_data: result@[index as int]->Split_0.chunk_data,
                    },
                ));
            }
            index = index + 1;
            offset = offset + MAX_SPLIT_BODY_SIZE;
        }
        if self.next_seqnum < u64::MAX {
            self.next_seqnum = self.next_seqnum + 1;
        }
        Ok(result)
    }
}

} // verus!
