use tps6699x::command::{
    ReturnValue, TfudArgs, TfuiArgs, TfuqArgs, TfuqBlockStatus, TfuqCommandType, TfuqStatusQuery,
    TFUE_TIMEOUT_MS, TFUQ_RETURN_LEN,
};
use tps6699x::error::{Error, PdError};
use tps6699x::fw_image::{
    app_config_block_metadata_offset, block_offset, block_place, data_block_index_to_block_index,
    data_block_metadata_offset, get_image_size, header_args, BlockPlace, FwBlock,
};
use tps6699x::fw_update::{
    command_ok, FwCommand, FwEvent, FwPhase, FwRequest, FwStep, FwUpdate,
};

type Bus = u8;

const HEADER_END: usize = 12 + 0x800;
const TIMEOUT: u32 = 400;

fn data_args(block: u16, data_len: u16) -> TfudArgs {
    TfudArgs { block_number: block, data_len, timeout_secs: 5, broadcast_u16_address: 0x0130 }
}

/// An image with `k` full data blocks and an application configuration
/// block of 0x800 bytes.
fn image(k: u16) -> Vec<u8> {
    let mut image = vec![0u8; HEADER_END];
    image[0..4].copy_from_slice(b"ACE1");
    let header = TfuiArgs {
        num_data_blocks_tx: k,
        data_len: 0x800,
        timeout_secs: 3,
        broadcast_u16_address: 0x0130,
    };
    header.encode_into_slice(&mut image[4..12]).unwrap();
    let app_size = k as u32 * 0x4000;
    image[0x4F8..0x4FC].copy_from_slice(&app_size.to_le_bytes());
    for i in 0..k {
        let mut meta = [0u8; 8];
        data_args(i + 1, 0x4000).encode_into_slice(&mut meta).unwrap();
        image.extend_from_slice(&meta);
        image.extend(std::iter::repeat(i as u8 + 1).take(0x4000));
    }
    let mut meta = [0u8; 8];
    data_args(0xFFFF, 0x800).encode_into_slice(&mut meta).unwrap();
    image.extend_from_slice(&meta);
    image.extend(std::iter::repeat(0xCC).take(0x800));
    image
}

fn query_answer(index: usize, status: u8) -> [u8; TFUQ_RETURN_LEN] {
    let mut answer = [0u8; TFUQ_RETURN_LEN];
    answer[7 + index] = status;
    answer
}

/// Runs an update and lets `device` answer every request. Returns the
/// requests that were made and how the update ended.
fn run(
    controllers: usize,
    image: &[u8],
    mut device: impl FnMut(&FwUpdate<Bus>, &FwRequest) -> Option<(Result<ReturnValue, Error<Bus>>, Vec<u8>)>,
    mut plain: impl FnMut(&FwRequest) -> Result<(), Error<Bus>>,
) -> (Vec<FwRequest>, Result<(), Error<Bus>>) {
    let (mut update, mut step) = FwUpdate::<Bus>::start(controllers, TIMEOUT);
    let mut requests = Vec::new();
    loop {
        let request = match step {
            FwStep::Done(result) => {
                assert_eq!(update.phase, FwPhase::Finished);
                return (requests, result);
            }
            FwStep::Request(request) => request,
        };
        requests.push(request);
        assert!(requests.len() < 100_000);
        step = match request {
            FwRequest::Execute { .. } => {
                let (result, out) = device(&update, &request).unwrap();
                update.resume(image, FwEvent::CommandResult(result, &out))
            }
            FwRequest::Delay { .. } => update.resume(image, FwEvent::Elapsed),
            _ => update.resume(image, FwEvent::Finished(plain(&request))),
        };
    }
}

/// A device that reports every block as good.
fn good_device(
    update: &FwUpdate<Bus>,
    request: &FwRequest,
) -> Option<(Result<ReturnValue, Error<Bus>>, Vec<u8>)> {
    match request {
        FwRequest::Execute { command: FwCommand::Query(_), .. } => {
            let index = update.block.index().unwrap();
            let status = if index == 0 { 0x09 } else { 0x0F };
            Some((Ok(ReturnValue::Success), query_answer(index, status).to_vec()))
        }
        FwRequest::Execute { .. } => Some((Ok(ReturnValue::Success), Vec::new())),
        _ => None,
    }
}

fn streamed_blocks(requests: &[FwRequest], controller: usize) -> Vec<u16> {
    requests
        .iter()
        .filter_map(|r| match r {
            FwRequest::Execute { controller: c, command: FwCommand::Stream(args), .. }
                if *c == controller =>
            {
                Some(args.block_number)
            }
            _ => None,
        })
        .collect()
}

fn burst_bytes(requests: &[FwRequest], image: &[u8]) -> Vec<u8> {
    let mut bytes = Vec::new();
    for r in requests {
        if let FwRequest::BurstWrite { address, start, end } = r {
            assert_eq!(*address, 0x30);
            assert!(end - start <= 256 && start < end);
            bytes.extend_from_slice(&image[*start..*end]);
        }
    }
    bytes
}

#[test]
fn layout_offsets() {
    assert_eq!(data_block_metadata_offset(0), 12 + 0x800);
    assert_eq!(data_block_metadata_offset(1), 12 + 0x800 + 0x4008);
    assert_eq!(data_block_metadata_offset(3), 12 + 0x800 + 3 * 0x4008);
    assert_eq!(block_offset(100), 108);
    assert_eq!(app_config_block_metadata_offset(2, 0x8000), 0x8000 + 4 + 8 + 0x800 + 16);
    assert_eq!(app_config_block_metadata_offset(0, 0), 2060);
    assert_eq!(data_block_index_to_block_index(0), 1);
    assert_eq!(data_block_index_to_block_index(10), 11);
}

#[test]
fn image_size_field() {
    let mut image = vec![0u8; 0x4FC];
    image[0x4F8..0x4FC].copy_from_slice(&[0x78, 0x56, 0x34, 0x12]);
    assert_eq!(get_image_size(&image), Ok(0x12345678));
    assert_eq!(get_image_size(&image[..0x4FB]), Err(PdError::InvalidParams));
    assert_eq!(get_image_size(&[]), Err(PdError::InvalidParams));
}

#[test]
fn header_arguments() {
    let image = image(2);
    assert_eq!(
        header_args(&image),
        Ok(TfuiArgs {
            num_data_blocks_tx: 2,
            data_len: 0x800,
            timeout_secs: 3,
            broadcast_u16_address: 0x0130
        })
    );
    assert_eq!(header_args(&image[..11]), Err(PdError::InvalidParams));
    assert!(header_args(&image[..12]).is_ok());
}

#[test]
fn block_places() {
    let image = image(2);
    assert_eq!(image.len(), 12 + 0x800 + 2 * 0x4008 + 8 + 0x800);
    assert_eq!(
        block_place(&image, FwBlock::Data(0), 2),
        Ok(BlockPlace { args: data_args(1, 0x4000), start: 2068, end: 2068 + 0x4000 })
    );
    assert_eq!(
        block_place(&image, FwBlock::Data(1), 2),
        Ok(BlockPlace {
            args: data_args(2, 0x4000),
            start: 2060 + 0x4008 + 8,
            end: 2060 + 2 * 0x4008
        })
    );
    let config_at = 2060 + 2 * 0x4008;
    assert_eq!(
        block_place(&image, FwBlock::Config, 2),
        Ok(BlockPlace {
            args: data_args(0xFFFF, 0x800),
            start: config_at + 8,
            end: config_at + 8 + 0x800
        })
    );
    assert_eq!(block_place(&image, FwBlock::Header, 2), Err(PdError::InvalidParams));
    // a place is a matter of layout alone: behind the last data block stands the next record
    assert_eq!(block_place(&image, FwBlock::Data(2), 2).map(|p| p.start), Ok(config_at + 8));
    assert_eq!(block_place(&image, FwBlock::Data(3), 2), Err(PdError::InvalidParams));
    // the image ends inside the block
    assert_eq!(
        block_place(&image[..image.len() - 1], FwBlock::Config, 2),
        Err(PdError::InvalidParams)
    );
    // the image ends inside the arguments
    assert_eq!(block_place(&image[..2067], FwBlock::Data(0), 2), Err(PdError::InvalidParams));
    assert_eq!(block_place(&image[..0x4FB], FwBlock::Config, 2), Err(PdError::InvalidParams));
}

#[test]
fn block_order_and_indices() {
    assert_eq!(FwBlock::Header.next(0), Some(FwBlock::Config));
    assert_eq!(FwBlock::Header.next(3), Some(FwBlock::Data(0)));
    assert_eq!(FwBlock::Data(0).next(3), Some(FwBlock::Data(1)));
    assert_eq!(FwBlock::Data(2).next(3), Some(FwBlock::Config));
    assert_eq!(FwBlock::Config.next(3), None);
    assert_eq!(FwBlock::Header.index(), Some(0));
    assert_eq!(FwBlock::Data(0).index(), Some(1));
    assert_eq!(FwBlock::Data(10).index(), Some(11));
    assert_eq!(FwBlock::Data(11).index(), Some(12));
    assert_eq!(FwBlock::Data(12).index(), None);
    assert_eq!(FwBlock::Config.index(), Some(12));
}

#[test]
fn block_verdicts() {
    assert_eq!(FwBlock::Header.verdict(&query_answer(0, 0x09)), Ok(()));
    assert_eq!(FwBlock::Header.verdict(&query_answer(0, 0x0F)), Err(PdError::Failed));
    assert_eq!(FwBlock::Header.verdict(&query_answer(0, 0x0A)), Err(PdError::Failed));
    assert_eq!(FwBlock::Data(0).verdict(&query_answer(1, 0x0F)), Ok(()));
    assert_eq!(FwBlock::Data(0).verdict(&query_answer(1, 0x10)), Ok(()));
    assert_eq!(FwBlock::Data(0).verdict(&query_answer(1, 0x09)), Err(PdError::Failed));
    assert_eq!(FwBlock::Data(0).verdict(&query_answer(1, 0x11)), Err(PdError::Failed));
    assert_eq!(FwBlock::Data(0).verdict(&query_answer(2, 0x0F)), Err(PdError::Failed));
    assert_eq!(FwBlock::Config.verdict(&query_answer(12, 0x0F)), Ok(()));
    assert_eq!(FwBlock::Config.verdict(&query_answer(12, 0x10)), Ok(()));
    assert_eq!(FwBlock::Config.verdict(&query_answer(12, 0x00)), Err(PdError::Failed));
    assert_eq!(FwBlock::Config.verdict(&query_answer(12, 0x1B)), Err(PdError::InvalidParams));
    assert_eq!(FwBlock::Data(12).verdict(&query_answer(12, 0x0F)), Err(PdError::InvalidParams));
    assert_eq!(FwBlock::Header.verdict(&[0x09; 39]), Err(PdError::InvalidParams));
    assert!(FwBlock::Header.accepts(TfuqBlockStatus::HeaderValidAndAuthentic));
    assert!(!FwBlock::Config.accepts(TfuqBlockStatus::HeaderValidAndAuthentic));
}

#[test]
fn command_encoding() {
    let mut buf = [0xEEu8; 9];
    let init = FwCommand::Init(TfuiArgs {
        num_data_blocks_tx: 1,
        data_len: 2,
        timeout_secs: 3,
        broadcast_u16_address: 4,
    });
    assert_eq!(init.encode_input(&mut buf), Ok(8));
    assert_eq!(buf, [1, 0, 2, 0, 3, 0, 4, 0, 0xEE]);
    assert_eq!(init.command().code(), u32::from_le_bytes(*b"TFUi"));
    assert_eq!(init.out_len(), 0);
    let query = FwCommand::Query(TfuqArgs {
        status_query: TfuqStatusQuery::StatusInProgress,
        command: TfuqCommandType::QueryTfuStatus,
    });
    let mut buf = [0xEEu8; 8];
    assert_eq!(query.encode_input(&mut buf), Ok(2));
    assert_eq!(&buf[..2], &[1, 0]);
    assert_eq!(query.out_len(), TFUQ_RETURN_LEN);
    assert_eq!(query.command().code(), u32::from_le_bytes(*b"TFUq"));
    assert_eq!(FwCommand::Exit.encode_input(&mut buf), Ok(0));
    assert_eq!(FwCommand::Exit.command().code(), u32::from_le_bytes(*b"TFUe"));
    let stream = FwCommand::Stream(data_args(7, 9));
    assert_eq!(stream.encode_input(&mut buf), Ok(8));
    assert_eq!(buf, [7, 0, 9, 0, 5, 0, 0x30, 0x01]);
    let mut short = [0u8; 7];
    assert_eq!(stream.encode_input(&mut short), Err(PdError::InvalidParams));
}

#[test]
fn update_transfers_blocks_in_order() {
    for k in [0u16, 1, 2, 3] {
        let image = image(k);
        let (requests, result) = run(1, &image, good_device, |_| Ok(()));
        assert_eq!(result, Ok(()));
        let mut expected: Vec<u16> = (1..=k).collect();
        expected.push(0xFFFF);
        assert_eq!(streamed_blocks(&requests, 0), expected);
        // every byte behind the image id and the arguments goes out once, in order
        let mut payload = image[12..HEADER_END].to_vec();
        for i in 0..k as usize {
            let start = HEADER_END + i * 0x4008 + 8;
            payload.extend_from_slice(&image[start..start + 0x4000]);
        }
        payload.extend_from_slice(&image[image.len() - 0x800..]);
        assert_eq!(burst_bytes(&requests, &image), payload);
        assert_eq!(requests.first(), Some(&FwRequest::EnterMode { controller: 0 }));
        assert_eq!(requests.last(), Some(&FwRequest::Complete { controller: 0 }));
        assert!(!requests.iter().any(|r| matches!(
            r,
            FwRequest::Execute { command: FwCommand::Exit, .. } | FwRequest::Reset { .. }
        )));
    }
}

#[test]
fn update_step_by_step() {
    let image = image(0);
    let (requests, result) = run(1, &image, good_device, |_| Ok(()));
    assert_eq!(result, Ok(()));
    let query = FwCommand::Query(TfuqArgs {
        status_query: TfuqStatusQuery::StatusInProgress,
        command: TfuqCommandType::QueryTfuStatus,
    });
    let mut expected = vec![
        FwRequest::EnterMode { controller: 0 },
        FwRequest::Execute {
            controller: 0,
            command: FwCommand::Init(header_args(&image).unwrap()),
            timeout_ms: TIMEOUT,
        },
    ];
    for chunk in 0..8 {
        expected.push(FwRequest::BurstWrite {
            address: 0x30,
            start: 12 + chunk * 256,
            end: 12 + (chunk + 1) * 256,
        });
    }
    expected.push(FwRequest::Delay { ms: 250 });
    expected.push(FwRequest::Execute { controller: 0, command: query, timeout_ms: TIMEOUT });
    expected.push(FwRequest::Execute {
        controller: 0,
        command: FwCommand::Stream(data_args(0xFFFF, 0x800)),
        timeout_ms: TIMEOUT,
    });
    for chunk in 0..8 {
        expected.push(FwRequest::BurstWrite {
            address: 0x30,
            start: 2068 + chunk * 256,
            end: 2068 + (chunk + 1) * 256,
        });
    }
    expected.push(FwRequest::Delay { ms: 150 });
    expected.push(FwRequest::Execute { controller: 0, command: query, timeout_ms: TIMEOUT });
    expected.push(FwRequest::Complete { controller: 0 });
    assert_eq!(requests, expected);
}

#[test]
fn every_controller_is_prepared_before_the_shared_write() {
    let image = image(1);
    let (requests, result) = run(3, &image, good_device, |_| Ok(()));
    assert_eq!(result, Ok(()));
    assert_eq!(
        &requests[..3],
        &[
            FwRequest::EnterMode { controller: 0 },
            FwRequest::EnterMode { controller: 1 },
            FwRequest::EnterMode { controller: 2 },
        ]
    );
    for controller in 0..3 {
        assert_eq!(streamed_blocks(&requests, controller), vec![1, 0xFFFF]);
    }
    // the bytes go out once, not once per controller
    assert_eq!(
        requests.iter().filter(|r| matches!(r, FwRequest::BurstWrite { .. })).count(),
        8 + 64 + 8
    );
    // a block is announced to all before its first byte, and judged by all after its last
    let first_burst =
        requests.iter().position(|r| matches!(r, FwRequest::BurstWrite { .. })).unwrap();
    let inits: Vec<usize> = requests[..first_burst]
        .iter()
        .filter_map(|r| match r {
            FwRequest::Execute { controller, command: FwCommand::Init(_), .. } => Some(*controller),
            _ => None,
        })
        .collect();
    assert_eq!(inits, vec![0, 1, 2]);
    assert_eq!(
        &requests[requests.len() - 3..],
        &[
            FwRequest::Complete { controller: 0 },
            FwRequest::Complete { controller: 1 },
            FwRequest::Complete { controller: 2 },
        ]
    );
}

fn exit(controller: usize) -> FwRequest {
    FwRequest::Execute { controller, command: FwCommand::Exit, timeout_ms: TFUE_TIMEOUT_MS }
}

#[test]
fn bad_block_leaves_update_mode_before_failing() {
    let image = image(2);
    // the second data block is reported as invalid
    let device = |update: &FwUpdate<Bus>, request: &FwRequest| match request {
        FwRequest::Execute { command: FwCommand::Query(_), .. }
            if update.block == FwBlock::Data(1) =>
        {
            Some((Ok(ReturnValue::Success), query_answer(2, 0x11).to_vec()))
        }
        _ => good_device(update, request),
    };
    let (requests, result) = run(2, &image, device, |_| Ok(()));
    assert_eq!(result, Err(Error::Pd(PdError::Failed)));
    assert_eq!(streamed_blocks(&requests, 0), vec![1, 2]);
    assert_eq!(&requests[requests.len() - 2..], &[exit(0), exit(1)]);
    assert!(!requests.iter().any(|r| matches!(r, FwRequest::Complete { .. })));
}

#[test]
fn failed_exit_resets_the_controller() {
    let image = image(1);
    let device = |update: &FwUpdate<Bus>, request: &FwRequest| match request {
        FwRequest::Execute { command: FwCommand::Query(_), .. } => {
            Some((Err(Error::Pd(PdError::Timeout)), Vec::new()))
        }
        FwRequest::Execute { controller: 0, command: FwCommand::Exit, .. } => {
            Some((Err(Error::Pd(PdError::Timeout)), Vec::new()))
        }
        FwRequest::Execute { controller: 1, command: FwCommand::Exit, .. } => {
            Some((Ok(ReturnValue::Rejected), Vec::new()))
        }
        _ => good_device(update, request),
    };
    // the resets fail too: that changes nothing
    let (requests, result) = run(3, &image, device, |r| match r {
        FwRequest::Reset { .. } => Err(Error::Bus(1)),
        _ => Ok(()),
    });
    assert_eq!(result, Err(Error::Pd(PdError::Timeout)));
    assert_eq!(
        &requests[requests.len() - 5..],
        &[
            exit(0),
            FwRequest::Reset { controller: 0 },
            exit(1),
            FwRequest::Reset { controller: 1 },
            exit(2),
        ]
    );
}

#[test]
fn failures_on_the_way_abort_with_their_error() {
    let image = image(1);
    // entering update mode fails on the second controller
    let (requests, result) = run(2, &image, good_device, |r| match r {
        FwRequest::EnterMode { controller: 1 } => Err(Error::Pd(PdError::InvalidMode)),
        _ => Ok(()),
    });
    assert_eq!(result, Err(Error::Pd(PdError::InvalidMode)));
    assert_eq!(
        requests,
        vec![
            FwRequest::EnterMode { controller: 0 },
            FwRequest::EnterMode { controller: 1 },
            exit(0),
            exit(1)
        ]
    );
    // the bus fails in the middle of a block
    let mut writes = 0;
    let (requests, result) = run(1, &image, good_device, |r| match r {
        FwRequest::BurstWrite { .. } => {
            writes += 1;
            if writes == 11 {
                Err(Error::Bus(0xEE))
            } else {
                Ok(())
            }
        }
        _ => Ok(()),
    });
    assert_eq!(result, Err(Error::Bus(0xEE)));
    assert_eq!(requests.last(), Some(&exit(0)));
    // the init command is rejected
    let device = |update: &FwUpdate<Bus>, request: &FwRequest| match request {
        FwRequest::Execute { command: FwCommand::Init(_), .. } => {
            Some((Ok(ReturnValue::Rejected), Vec::new()))
        }
        _ => good_device(update, request),
    };
    let (requests, result) = run(1, &image, device, |_| Ok(()));
    assert_eq!(result, Err(Error::Pd(PdError::Rejected)));
    assert_eq!(requests.len(), 3);
    assert_eq!(requests.last(), Some(&exit(0)));
    // the announcement of a block is aborted
    let device = |update: &FwUpdate<Bus>, request: &FwRequest| match request {
        FwRequest::Execute { command: FwCommand::Stream(_), .. } => {
            Some((Ok(ReturnValue::Abort), Vec::new()))
        }
        _ => good_device(update, request),
    };
    let (requests, result) = run(1, &image, device, |_| Ok(()));
    assert_eq!(result, Err(Error::Pd(PdError::Failed)));
    assert_eq!(requests.last(), Some(&exit(0)));
}

#[test]
fn command_verdicts() {
    assert_eq!(command_ok::<Bus>(Ok(ReturnValue::Success)), Ok(()));
    assert_eq!(command_ok::<Bus>(Ok(ReturnValue::Rejected)), Err(Error::Pd(PdError::Rejected)));
    assert_eq!(command_ok::<Bus>(Ok(ReturnValue::Abort)), Err(Error::Pd(PdError::Failed)));
    assert_eq!(command_ok::<Bus>(Ok(ReturnValue::Task3)), Err(Error::Pd(PdError::Failed)));
    assert_eq!(command_ok::<Bus>(Err(Error::Bus(4))), Err(Error::Bus(4)));
    assert_eq!(
        command_ok::<Bus>(Err(Error::Pd(PdError::Timeout))),
        Err(Error::Pd(PdError::Timeout))
    );
}

#[test]
fn short_images_are_refused_and_update_mode_is_left() {
    let full = image(1);
    for len in [0usize, 11, 12, HEADER_END - 1, HEADER_END, HEADER_END + 8, full.len() - 1] {
        let (requests, result) = run(1, &full[..len], good_device, |_| Ok(()));
        assert_eq!(result, Err(Error::Pd(PdError::InvalidParams)), "length {}", len);
        assert_eq!(requests.last(), Some(&exit(0)));
    }
    let (_, result) = run(1, &full, good_device, |_| Ok(()));
    assert_eq!(result, Ok(()));
}

#[test]
fn no_controller_is_refused() {
    let (update, step) = FwUpdate::<Bus>::start(0, TIMEOUT);
    assert_eq!(step, FwStep::Done(Err(Error::Pd(PdError::InvalidParams))));
    assert_eq!(update.phase, FwPhase::Finished);
}

#[test]
fn failed_completion_is_recovered_and_reported() {
    let image = image(0);
    let (requests, result) = run(3, &image, good_device, |r| match r {
        FwRequest::Complete { controller: 1 } => Err(Error::Pd(PdError::InvalidMode)),
        _ => Ok(()),
    });
    assert_eq!(result, Err(Error::Pd(PdError::InvalidMode)));
    assert_eq!(
        &requests[requests.len() - 4..],
        &[
            FwRequest::Complete { controller: 0 },
            FwRequest::Complete { controller: 1 },
            exit(1),
            FwRequest::Complete { controller: 2 },
        ]
    );
}

#[test]
fn unexpected_event_counts_as_failure() {
    let image = image(0);
    let (mut update, _) = FwUpdate::<Bus>::start(1, TIMEOUT);
    assert_eq!(update.resume(&image, FwEvent::Elapsed), FwStep::Request(exit(0)));
    assert_eq!(update.outcome, Err(Error::Pd(PdError::Failed)));
    assert_eq!(
        update.resume(&image, FwEvent::Elapsed),
        FwStep::Request(FwRequest::Reset { controller: 0 })
    );
    assert_eq!(
        update.resume(&image, FwEvent::Elapsed),
        FwStep::Done(Err(Error::Pd(PdError::Failed)))
    );
    assert_eq!(
        update.resume(&image, FwEvent::Elapsed),
        FwStep::Done(Err(Error::Pd(PdError::Failed)))
    );
}

#[test]
fn too_many_data_blocks_fail_at_the_first_without_a_status() {
    // thirteen data blocks: the last has no place among the block statuses
    let image = image(13);
    let (requests, result) = run(1, &image, good_device_or_nothing, |_| Ok(()));
    assert_eq!(result, Err(Error::Pd(PdError::InvalidParams)));
    assert_eq!(streamed_blocks(&requests, 0), (1..=13).collect::<Vec<u16>>());
    assert_eq!(requests.last(), Some(&exit(0)));
}

fn good_device_or_nothing(
    update: &FwUpdate<Bus>,
    request: &FwRequest,
) -> Option<(Result<ReturnValue, Error<Bus>>, Vec<u8>)> {
    match request {
        FwRequest::Execute { command: FwCommand::Query(_), .. } => match update.block.index() {
            Some(index) => {
                let status = if index == 0 { 0x09 } else { 0x0F };
                Some((Ok(ReturnValue::Success), query_answer(index, status).to_vec()))
            }
            None => Some((Ok(ReturnValue::Success), [0x0F; TFUQ_RETURN_LEN].to_vec())),
        },
        _ => good_device(update, request),
    }
}
