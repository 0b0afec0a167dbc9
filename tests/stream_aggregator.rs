use disktest::bufcache::{BufCache, BufCacheCons};
use disktest::stream::{DtChunkSource, DtStreamChunk, DtStreamError, DtStreamType};
use disktest::stream_aggregator::{align_offset, thread_offset, DtStreamAgg, DtStreamAggChunk};

fn splitmix(x: u64) -> u64 {
    let mut z = x.wrapping_add(0x9E37_79B9_7F4A_7C15);
    z = (z ^ (z >> 30)).wrapping_mul(0xBF58_476D_1CE4_E5B9);
    z = (z ^ (z >> 27)).wrapping_mul(0x94D0_49BB_1331_11EB);
    z ^ (z >> 31)
}

/// A seekable keystream fixture: every 256-byte block is a permutation of
/// all byte values, chosen by the key and the block's offset.
fn fill(data: &mut [u8], key: u64, offset: u64) {
    assert_eq!(offset % 256, 0);
    for (b, block) in data.chunks_mut(256).enumerate() {
        let mut perm: Vec<u8> = (0..=255u8).collect();
        let mut state = splitmix(key ^ splitmix(offset / 256 + b as u64));
        for i in (1..256usize).rev() {
            state = splitmix(state);
            let j = (state % (i as u64 + 1)) as usize;
            perm.swap(i, j);
        }
        block.copy_from_slice(&perm[..block.len()]);
    }
}

struct TestWorker {
    key: u64,
    cons: BufCacheCons,
    chunk_size: usize,
    offset: u64,
    index: u64,
    active: bool,
    ready: bool,
    fail: bool,
}

impl DtChunkSource for TestWorker {
    fn activate(&mut self, byte_offset: u64) {
        self.offset = byte_offset;
        self.index = 0;
        self.active = true;
    }

    fn get_chunk(&mut self) -> Result<Option<DtStreamChunk>, DtStreamError> {
        if !self.active {
            return Ok(None);
        }
        if self.fail {
            return Err(DtStreamError::GeneratorSeek);
        }
        if !self.ready {
            return Ok(None);
        }
        let mut data = self.cons.pull(self.chunk_size);
        fill(&mut data, self.key, self.offset);
        let chunk = DtStreamChunk { index: self.index, data };
        self.index += 1;
        self.offset += self.chunk_size as u64;
        Ok(Some(chunk))
    }
}

fn worker_key(stype: DtStreamType, seed: &[u8], id: u32) -> u64 {
    let mut k = splitmix(stype as u64 + 1);
    for &b in seed {
        k = splitmix(k ^ b as u64);
    }
    splitmix(k ^ ((id as u64) << 32))
}

fn new_agg(stype: DtStreamType, seed: Vec<u8>, num_threads: usize) -> DtStreamAgg<TestWorker> {
    let mut cache = BufCache::new();
    let mut streams = Vec::new();
    for i in 0..num_threads {
        streams.push(TestWorker {
            key: worker_key(stype, &seed, i as u32),
            cons: cache.new_consumer(i as u32),
            chunk_size: stype.get_chunk_size(),
            offset: 0,
            index: 0,
            active: false,
            ready: true,
            fail: false,
        });
    }
    DtStreamAgg::new(stype, streams, cache)
}

fn wait_chunk(agg: &mut DtStreamAgg<TestWorker>) -> DtStreamAggChunk {
    loop {
        if let Some(chunk) = agg.get_chunk().unwrap() {
            return chunk;
        }
    }
}

fn take_data(agg: &mut DtStreamAgg<TestWorker>) -> Vec<u8> {
    let chunk = wait_chunk(agg);
    let data = chunk.get_data().to_vec();
    agg.release(chunk);
    data
}

fn run_base_test(algorithm: DtStreamType, gen_base_size: usize, chunk_factor: usize) {
    let num_threads = 2;
    let mut agg = new_agg(algorithm, vec![1, 2, 3], num_threads);
    agg.activate(0).unwrap();
    assert_eq!(agg.is_active(), true);

    let onestream_chunksize = chunk_factor * gen_base_size;
    assert_eq!(agg.get_chunk_size(), onestream_chunksize);

    let mut prev_chunks: Option<Vec<DtStreamAggChunk>> = None;

    for _ in 0..4 {
        let mut chunks = vec![];
        for _ in 0..num_threads {
            let chunk = wait_chunk(&mut agg);
            assert_eq!(chunk.get_data().len(), onestream_chunksize);

            // Check if we have an even distribution.
            let mut avg = vec![0; 256];
            for i in 0..chunk.get_data().len() {
                let index = chunk.get_data()[i] as usize;
                avg[index] += 1;
            }
            let expected_avg = onestream_chunksize / 256;
            let thres = (expected_avg as f32 * 0.93) as usize;
            for acount in &avg {
                assert!(*acount >= thres);
            }
            chunks.push(chunk);
        }

        // Check if the streams are different.
        let mut equal = 0;
        let nr_check = onestream_chunksize;
        for i in 0..nr_check {
            if chunks[0].get_data()[i] == chunks[1].get_data()[i] {
                equal += 1;
            }
        }
        assert_ne!(equal, 0);
        let thres = (nr_check as f32 * 0.01) as usize;
        assert!(equal < thres);

        // Check if current chunks are different from previous chunks.
        if let Some(pchunks) = prev_chunks {
            for i in 0..num_threads {
                let mut equal = 0;
                let nr_check = onestream_chunksize;
                for j in 0..nr_check {
                    if chunks[i].get_data()[j] == pchunks[i].get_data()[j] {
                        equal += 1;
                    }
                }
                assert_ne!(equal, 0);
                let thres = (nr_check as f32 * 0.01) as usize;
                assert!(equal < thres);
            }
            for c in pchunks {
                agg.release(c);
            }
        }
        prev_chunks = Some(chunks);
    }
}

fn run_offset_test(algorithm: DtStreamType) {
    let num_threads = 2;

    for offset in 0..5 {
        let mut a = new_agg(algorithm, vec![1, 2, 3], num_threads);
        a.activate(0).unwrap();

        let mut b = new_agg(algorithm, vec![1, 2, 3], num_threads);
        b.activate(a.get_chunk_size() as u64 * offset).unwrap();

        // Until offset the chunks must not be equal.
        let mut bchunk = take_data(&mut b);
        for _ in 0..offset {
            assert!(take_data(&mut a) != bchunk);
        }
        // The rest must be equal.
        for _ in 0..20 {
            assert!(take_data(&mut a) == bchunk);
            bchunk = take_data(&mut b);
        }
    }
}

#[test]
fn stream_aggregator_test_chacha8() {
    let alg = DtStreamType::ChaCha8;
    run_base_test(alg, alg.get_generator_outsize(), alg.get_chunk_factor());
    run_offset_test(alg);
}

#[test]
fn stream_aggregator_test_chacha12() {
    let alg = DtStreamType::ChaCha12;
    run_base_test(alg, alg.get_generator_outsize(), alg.get_chunk_factor());
    run_offset_test(alg);
}

#[test]
fn stream_aggregator_test_chacha20() {
    let alg = DtStreamType::ChaCha20;
    run_base_test(alg, alg.get_generator_outsize(), alg.get_chunk_factor());
    run_offset_test(alg);
}

#[test]
fn stream_aggregator_test_crc() {
    let alg = DtStreamType::Crc;
    run_base_test(alg, alg.get_generator_outsize(), alg.get_chunk_factor());
    run_offset_test(alg);
}

#[test]
fn two_aggregators_give_identical_streams() {
    for n in [1usize, 3] {
        let mut a = new_agg(DtStreamType::ChaCha20, vec![9, 9], n);
        let mut b = new_agg(DtStreamType::ChaCha20, vec![9, 9], n);
        let cs = a.get_chunk_size() as u64;
        assert_eq!(a.activate(5 * cs).unwrap(), 5 * cs);
        assert_eq!(b.activate(5 * cs).unwrap(), 5 * cs);
        for _ in 0..10 {
            assert_eq!(take_data(&mut a), take_data(&mut b));
        }
    }
}

#[test]
fn seek_to_second_chunk_with_one_worker() {
    let mut a = new_agg(DtStreamType::ChaCha8, vec![1, 2, 3], 1);
    let mut b = new_agg(DtStreamType::ChaCha8, vec![1, 2, 3], 1);
    let cs = a.get_chunk_size() as u64;
    a.activate(0).unwrap();
    assert_eq!(b.activate(cs).unwrap(), cs);
    let a0 = take_data(&mut a);
    let a1 = take_data(&mut a);
    let b0 = take_data(&mut b);
    assert_ne!(a0, b0);
    assert_eq!(a1, b0);
}

#[test]
fn misaligned_offset_is_rounded_down() {
    let mut a = new_agg(DtStreamType::Crc, vec![1, 2, 3], 2);
    let mut b = new_agg(DtStreamType::Crc, vec![1, 2, 3], 2);
    let cs = a.get_chunk_size() as u64;
    assert_eq!(a.activate(cs + 7).unwrap(), cs);
    assert_eq!(b.activate(cs).unwrap(), cs);
    for _ in 0..6 {
        assert_eq!(take_data(&mut a), take_data(&mut b));
    }
    assert_eq!(align_offset(cs + 7, cs), cs);
    assert_eq!(align_offset(cs - 1, cs), 0);
    assert_eq!(align_offset(u64::MAX, 10), u64::MAX - 5);
}

#[test]
fn round_robin_worker_ids() {
    let mut agg = new_agg(DtStreamType::ChaCha8, vec![4], 3);
    let cs = agg.get_chunk_size() as u64;
    agg.activate(4 * cs).unwrap();
    let mut ids = vec![];
    let mut indices = vec![];
    for _ in 0..7 {
        let c = wait_chunk(&mut agg);
        ids.push(c.get_thread_id());
        indices.push(c.get_index());
        agg.release(c);
    }
    assert_eq!(ids, vec![1, 2, 0, 1, 2, 0, 1]);
    assert_eq!(indices, vec![0, 0, 0, 1, 1, 1, 2]);
}

#[test]
fn thread_offsets_follow_round_robin() {
    // Global chunk 7 with 3 workers: round 2, worker 1 is next.
    assert_eq!(thread_offset(0, 7, 3, 100), 300);
    assert_eq!(thread_offset(1, 7, 3, 100), 200);
    assert_eq!(thread_offset(2, 7, 3, 100), 200);
    assert_eq!(thread_offset(0, 0, 1, 100), 0);
    assert_eq!(thread_offset(0, 5, 1, 100), 500);
}

#[test]
fn workers_differ_within_a_round() {
    let mut agg = new_agg(DtStreamType::ChaCha12, vec![1, 2, 3], 4);
    agg.activate(0).unwrap();
    let chunks: Vec<Vec<u8>> = (0..4).map(|_| take_data(&mut agg)).collect();
    for i in 0..4 {
        for j in (i + 1)..4 {
            let differ = chunks[i].iter().zip(&chunks[j]).filter(|(x, y)| x != y).count();
            assert!(differ * 10 >= chunks[i].len() * 9);
        }
    }
}

#[test]
fn inactive_aggregator_gives_nothing() {
    let mut agg = new_agg(DtStreamType::ChaCha8, vec![1], 2);
    assert!(!agg.is_active());
    assert!(agg.get_chunk().unwrap().is_none());
}

#[test]
fn waiting_worker_blocks_the_stream() {
    let mut cache = BufCache::new();
    let cs = DtStreamType::ChaCha8.get_chunk_size();
    let mut streams = Vec::new();
    for i in 0..2u32 {
        streams.push(TestWorker {
            key: i as u64,
            cons: cache.new_consumer(i),
            chunk_size: cs,
            offset: 0,
            index: 0,
            active: false,
            ready: i == 1,
            fail: false,
        });
    }
    let mut agg = DtStreamAgg::new(DtStreamType::ChaCha8, streams, cache);
    agg.activate(0).unwrap();
    // Worker 0 has nothing ready; worker 1's chunk must not be handed out.
    for _ in 0..3 {
        assert!(agg.get_chunk().unwrap().is_none());
    }
}

#[test]
fn worker_error_reaches_consumer() {
    let mut cache = BufCache::new();
    let cs = DtStreamType::ChaCha8.get_chunk_size();
    let streams = vec![TestWorker {
        key: 0,
        cons: cache.new_consumer(0),
        chunk_size: cs,
        offset: 0,
        index: 0,
        active: false,
        ready: true,
        fail: true,
    }];
    let mut agg = DtStreamAgg::new(DtStreamType::ChaCha8, streams, cache);
    agg.activate(0).unwrap();
    assert_eq!(agg.get_chunk().err(), Some(DtStreamError::GeneratorSeek));
}

#[test]
fn accept_hands_out_the_workers_bytes() {
    let mut agg = new_agg(DtStreamType::ChaCha8, vec![1], 3);
    assert_eq!(agg.get_num_threads(), 3);
    let cs = agg.get_chunk_size() as u64;
    agg.activate(2 * cs).unwrap();
    assert!(agg.accept(Ok(None)).unwrap().is_none());
    assert_eq!(agg.accept(Err(DtStreamError::GeneratorSeek)).err(), Some(DtStreamError::GeneratorSeek));
    let c = agg.accept(Ok(Some(DtStreamChunk { index: 5, data: vec![7, 8, 9] }))).unwrap().unwrap();
    assert_eq!(c.get_data(), &[7, 8, 9]);
    assert_eq!(c.get_index(), 5);
    assert_eq!(c.get_thread_id(), 2);
    let d = agg.accept(Ok(Some(DtStreamChunk { index: 0, data: vec![1] }))).unwrap().unwrap();
    assert_eq!(d.get_thread_id(), 0);
    agg.release(c);
    agg.release(d);
}

#[test]
fn activate_returns_aligned_offset() {
    let mut agg = new_agg(DtStreamType::ChaCha20, vec![1], 2);
    let cs = agg.get_chunk_size() as u64;
    assert_eq!(agg.activate(3 * cs).unwrap(), 3 * cs);
    assert_eq!(agg.activate(3 * cs + cs - 1).unwrap(), 3 * cs);
    assert_eq!(agg.activate(u64::MAX).unwrap(), u64::MAX - u64::MAX % cs);
    assert!(agg.is_active());
}
