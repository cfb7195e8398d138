//! Layout of a firmware image.
//!
//! An image starts with its four-byte id. The arguments of the update init
//! command follow, then the header block. Behind the header block stand the
//! data blocks, each with the arguments of its update data command in front
//! of it. The application configuration block, again behind its arguments,
//! stands where the size of the application image says.
use vstd::prelude::*;

use crate::bytes::{le_u32, read_u32_le};
use crate::command::{
    TfudArgs, TfuiArgs, TfuqBlockStatus, TfuqReturnValue, PD_FW_APP_CONFIG_BLOCK_INDEX,
    PD_FW_APP_CONFIG_METADATA_SIZE, PD_FW_APP_IMAGE_SIZE_OFFSET, PD_FW_DATA_BLOCK_METADATA_SIZE,
    PD_FW_DATA_BLOCK_SIZE, PD_FW_DATA_BLOCK_START_INDEX, PD_FW_HEADER_BLOCK_INDEX,
    PD_FW_HEADER_BLOCK_LENGTH, PD_FW_HEADER_BLOCK_OFFSET, PD_FW_HEADER_METADATA_LENGTH,
    PD_FW_HEADER_METADATA_OFFSET, PD_FW_IMAGE_ID_LENGTH, TFUQ_BLOCK_STATUS_LEN,
};
use crate::error::PdError;

verus! {

/// Where the arguments of data block `block` stand in an image.
pub open spec fn spec_data_block_metadata_offset(block: int) -> int {
    PD_FW_HEADER_BLOCK_OFFSET + PD_FW_HEADER_BLOCK_LENGTH + block * (PD_FW_DATA_BLOCK_SIZE
        + PD_FW_DATA_BLOCK_METADATA_SIZE)
}

/// Where the arguments of the application configuration block stand in an
/// image with `num_data_blocks` data blocks and an application image of
/// `app_size` bytes.
pub open spec fn spec_app_config_block_metadata_offset(num_data_blocks: int, app_size: int) -> int {
    app_size + PD_FW_IMAGE_ID_LENGTH + PD_FW_HEADER_METADATA_LENGTH + PD_FW_HEADER_BLOCK_LENGTH
        + num_data_blocks * PD_FW_DATA_BLOCK_METADATA_SIZE
}

/// Where the arguments of data block `block` stand in an image.
pub fn data_block_metadata_offset(block: usize) -> (r: usize)
    requires
        block <= u16::MAX,
    ensures
        r == spec_data_block_metadata_offset(block as int),
{
    let stride: usize = PD_FW_DATA_BLOCK_SIZE + PD_FW_DATA_BLOCK_METADATA_SIZE;
    assert(block * stride <= 0xFFFF * 0x4008) by (nonlinear_arith)
        requires
            block <= 0xFFFF,
            stride == 0x4008,
    ;
    PD_FW_HEADER_BLOCK_OFFSET + PD_FW_HEADER_BLOCK_LENGTH + (block * stride)
}

/// Where a block stands whose arguments stand at `metadata_offset`.
pub fn block_offset(metadata_offset: usize) -> (r: usize)
    requires
        metadata_offset + PD_FW_DATA_BLOCK_METADATA_SIZE <= usize::MAX,
    ensures
        r == metadata_offset + PD_FW_DATA_BLOCK_METADATA_SIZE,
{
    metadata_offset + PD_FW_DATA_BLOCK_METADATA_SIZE
}

/// Where the arguments of the application configuration block stand.
pub fn app_config_block_metadata_offset(num_data_blocks: usize, app_size: usize) -> (r: usize)
    requires
        num_data_blocks <= u16::MAX,
        spec_app_config_block_metadata_offset(num_data_blocks as int, app_size as int)
            <= usize::MAX,
    ensures
        r == spec_app_config_block_metadata_offset(num_data_blocks as int, app_size as int),
{
    app_size + PD_FW_IMAGE_ID_LENGTH + PD_FW_HEADER_METADATA_LENGTH + PD_FW_HEADER_BLOCK_LENGTH
        + num_data_blocks * PD_FW_DATA_BLOCK_METADATA_SIZE
}

/// The size of the application image that an image states: the 32-bit value
/// at the fixed place for it, low byte first. An image that ends before that
/// place is refused.
pub open spec fn spec_image_size(image: Seq<u8>) -> Result<u32, PdError> {
    if image.len() < PD_FW_APP_IMAGE_SIZE_OFFSET + 4 {
        Err(PdError::InvalidParams)
    } else {
        Ok(
            le_u32(
                image.subrange(
                    PD_FW_APP_IMAGE_SIZE_OFFSET as int,
                    PD_FW_APP_IMAGE_SIZE_OFFSET + 4,
                ),
            ),
        )
    }
}

/// Reads the size of the application image out of an image.
pub fn get_image_size(image: &[u8]) -> (r: Result<u32, PdError>)
    ensures
        r == spec_image_size(image@),
{
    if image.len() < PD_FW_APP_IMAGE_SIZE_OFFSET + 4 {
        return Err(PdError::InvalidParams);
    }
    Ok(read_u32_le(image, PD_FW_APP_IMAGE_SIZE_OFFSET))
}

/// The index under which the controller keeps the status of data block
/// `block_index`: data blocks are numbered behind the header block.
pub fn data_block_index_to_block_index(block_index: usize) -> (r: usize)
    requires
        block_index < usize::MAX,
    ensures
        r == block_index + PD_FW_DATA_BLOCK_START_INDEX,
{
    block_index + PD_FW_DATA_BLOCK_START_INDEX
}

/// The arguments of the update init command that an image holds. An image
/// that ends before them is refused.
pub open spec fn spec_header_args(image: Seq<u8>) -> Result<TfuiArgs, PdError> {
    if PD_FW_HEADER_METADATA_OFFSET + PD_FW_HEADER_METADATA_LENGTH > image.len() {
        Err(PdError::InvalidParams)
    } else {
        Ok(
            TfuiArgs::spec_decode(
                image.subrange(
                    PD_FW_HEADER_METADATA_OFFSET as int,
                    PD_FW_HEADER_METADATA_OFFSET + PD_FW_HEADER_METADATA_LENGTH,
                ),
            ),
        )
    }
}

/// Reads the arguments of the update init command out of an image.
pub fn header_args(image: &[u8]) -> (r: Result<TfuiArgs, PdError>)
    ensures
        r == spec_header_args(image@),
{
    if PD_FW_HEADER_METADATA_OFFSET + PD_FW_HEADER_METADATA_LENGTH > image.len() {
        return Err(PdError::InvalidParams);
    }
    let buf = vstd::slice::slice_subrange(
        image,
        PD_FW_HEADER_METADATA_OFFSET,
        PD_FW_HEADER_METADATA_OFFSET + PD_FW_HEADER_METADATA_LENGTH,
    );
    TfuiArgs::decode_from_slice(buf)
}

/// One block of an image: the header block, a data block by its position
/// among the data blocks, or the application configuration block.
#[derive(Debug, Clone, Copy, PartialEq, Eq, Structural)]
pub enum FwBlock {
    Header,
    Data(u16),
    Config,
}

impl FwBlock {
    /// The index under which the controller keeps the status of the block:
    /// zero for the header block, one more than its position for a data
    /// block, and twelve for the application configuration block.
    pub open spec fn spec_index(self) -> int {
        match self {
            FwBlock::Header => PD_FW_HEADER_BLOCK_INDEX as int,
            FwBlock::Data(i) => i + PD_FW_DATA_BLOCK_START_INDEX,
            FwBlock::Config => PD_FW_APP_CONFIG_BLOCK_INDEX as int,
        }
    }

    /// The block that is transferred after this one in an image with `k`
    /// data blocks: the data blocks follow the header block in order, the
    /// application configuration block follows the last of them, and nothing
    /// follows it.
    pub open spec fn spec_next(self, k: int) -> Option<FwBlock> {
        match self {
            FwBlock::Header => if k > 0 {
                Some(FwBlock::Data(0))
            } else {
                Some(FwBlock::Config)
            },
            FwBlock::Data(i) => if i + 1 < k {
                Some(FwBlock::Data((i + 1) as u16))
            } else {
                Some(FwBlock::Config)
            },
            FwBlock::Config => None,
        }
    }

    /// The place of the block in the order of transfer of an image with `k`
    /// data blocks: the header block comes first, the data blocks take the
    /// places one to `k`, the application configuration block comes last.
    pub open spec fn spec_position(self, k: int) -> int {
        match self {
            FwBlock::Header => 0,
            FwBlock::Data(i) => i + 1,
            FwBlock::Config => k + 1,
        }
    }

    /// Whether a status lets the update go on after this block: the header
    /// block must be valid and authentic, any other block valid and
    /// authentic, or valid and a repetition.
    pub open spec fn spec_accepts(self, status: TfuqBlockStatus) -> bool {
        match self {
            FwBlock::Header => status == TfuqBlockStatus::HeaderValidAndAuthentic,
            _ => status == TfuqBlockStatus::DataValidAndAuthentic || status
                == TfuqBlockStatus::DataValidButRepeated,
        }
    }

    /// What the answer to an update query says about the block: the status
    /// that it holds for the block's index must be one that lets the update
    /// go on. An answer too short to decode, an index that the answer has no
    /// status for and a status byte that stands for no status are refused;
    /// any other status fails the block.
    pub open spec fn spec_verdict(self, answer: Seq<u8>) -> Result<(), PdError> {
        if answer.len() < crate::command::TFUQ_RETURN_LEN || self.spec_index()
            >= TFUQ_BLOCK_STATUS_LEN {
            Err(PdError::InvalidParams)
        } else {
            match TfuqBlockStatus::from_code(answer[7 + self.spec_index()]) {
                Some(status) => if self.spec_accepts(status) {
                    Ok(())
                } else {
                    Err(PdError::Failed)
                },
                None => Err(PdError::InvalidParams),
            }
        }
    }

    /// The index under which the controller keeps the status of the block,
    /// if it fits.
    pub fn index(self) -> (r: Option<usize>)
        ensures
            r == (if self.spec_index() < TFUQ_BLOCK_STATUS_LEN {
                Some(self.spec_index() as usize)
            } else {
                None
            }),
    {
        match self {
            FwBlock::Header => Some(PD_FW_HEADER_BLOCK_INDEX),
            FwBlock::Data(i) => if (i as usize) < TFUQ_BLOCK_STATUS_LEN - 1 {
                Some(data_block_index_to_block_index(i as usize))
            } else {
                None
            },
            FwBlock::Config => Some(PD_FW_APP_CONFIG_BLOCK_INDEX),
        }
    }

    /// The block that is transferred after this one.
    pub fn next(self, k: u16) -> (r: Option<FwBlock>)
        ensures
            r == self.spec_next(k as int),
    {
        match self {
            FwBlock::Header => if k > 0 {
                Some(FwBlock::Data(0))
            } else {
                Some(FwBlock::Config)
            },
            FwBlock::Data(i) => if i < k && i + 1 < k {
                Some(FwBlock::Data(i + 1))
            } else {
                Some(FwBlock::Config)
            },
            FwBlock::Config => None,
        }
    }

    /// Whether a status lets the update go on after this block.
    pub fn accepts(self, status: TfuqBlockStatus) -> (r: bool)
        ensures
            r == self.spec_accepts(status),
    {
        match self {
            FwBlock::Header => match status {
                TfuqBlockStatus::HeaderValidAndAuthentic => true,
                _ => false,
            },
            _ => match status {
                TfuqBlockStatus::DataValidAndAuthentic => true,
                TfuqBlockStatus::DataValidButRepeated => true,
                _ => false,
            },
        }
    }

    /// Judges the block by the answer to an update query.
    pub fn verdict(self, answer: &[u8]) -> (r: Result<(), PdError>)
        ensures
            r == self.spec_verdict(answer@),
    {
        let decoded = match TfuqReturnValue::decode_from_slice(answer) {
            Ok(d) => d,
            Err(e) => {
                return Err(e);
            },
        };
        let index = match self.index() {
            Some(i) => i,
            None => {
                return Err(PdError::InvalidParams);
            },
        };
        assert(decoded.block_status@[index as int] == answer@.subrange(7, 20)[index as int]);
        match TfuqBlockStatus::try_from(decoded.block_status[index]) {
            Ok(status) => if self.accepts(status) {
                Ok(())
            } else {
                Err(PdError::Failed)
            },
            Err(e) => Err(e),
        }
    }
}

/// Where a block and its arguments stand in an image.
#[derive(Debug, Clone, Copy, PartialEq, Eq, Structural)]
pub struct BlockPlace {
    /// The arguments of the update data command for the block
    pub args: TfudArgs,
    /// Where the block starts
    pub start: usize,
    /// Where the block ends
    pub end: usize,
}

/// Where the arguments of a block stand in an image with `k` data blocks:
/// for a data block where its position says, for the application
/// configuration block where the size of the application image says. The
/// header block has no such arguments.
pub open spec fn spec_metadata_offset(image: Seq<u8>, block: FwBlock, k: int) -> Result<
    int,
    PdError,
> {
    match block {
        FwBlock::Header => Err(PdError::InvalidParams),
        FwBlock::Data(i) => Ok(spec_data_block_metadata_offset(i as int)),
        FwBlock::Config => match spec_image_size(image) {
            Ok(app_size) => Ok(spec_app_config_block_metadata_offset(k, app_size as int)),
            Err(e) => Err(e),
        },
    }
}

/// Where a block stands in an image with `k` data blocks: its arguments are
/// the eight bytes at its metadata offset, the block itself follows them and
/// is as long as they say. A block or arguments that the image does not
/// hold in full are refused.
pub open spec fn spec_block_place(image: Seq<u8>, block: FwBlock, k: int) -> Result<
    BlockPlace,
    PdError,
> {
    match spec_metadata_offset(image, block, k) {
        Err(e) => Err(e),
        Ok(offset) => if offset + PD_FW_DATA_BLOCK_METADATA_SIZE > image.len() {
            Err(PdError::InvalidParams)
        } else {
            let args = TfudArgs::spec_decode(
                image.subrange(offset, offset + PD_FW_DATA_BLOCK_METADATA_SIZE),
            );
            let start = offset + PD_FW_DATA_BLOCK_METADATA_SIZE;
            if start + args.data_len > image.len() {
                Err(PdError::InvalidParams)
            } else {
                Ok(
                    BlockPlace {
                        args,
                        start: start as usize,
                        end: (start + args.data_len) as usize,
                    },
                )
            }
        },
    }
}

/// Finds a block and its arguments in an image with `k` data blocks.
pub fn block_place(image: &[u8], block: FwBlock, k: u16) -> (r: Result<BlockPlace, PdError>)
    ensures
        r == spec_block_place(image@, block, k as int),
        r matches Ok(p) ==> p.start <= p.end <= image@.len() && p.end - p.start
            == p.args.data_len,
{
    let offset: u64 = match block {
        FwBlock::Header => {
            return Err(PdError::InvalidParams);
        },
        FwBlock::Data(i) => {
            let stride: u64 = (PD_FW_DATA_BLOCK_SIZE + PD_FW_DATA_BLOCK_METADATA_SIZE) as u64;
            assert(i * stride <= 0xFFFF * 0x4008) by (nonlinear_arith)
                requires
                    i <= 0xFFFF,
                    stride == 0x4008,
            ;
            (PD_FW_HEADER_BLOCK_OFFSET as u64) + (PD_FW_HEADER_BLOCK_LENGTH as u64) + (i as u64)
                * stride
        },
        FwBlock::Config => {
            let app_size = match get_image_size(image) {
                Ok(s) => s,
                Err(e) => {
                    return Err(e);
                },
            };
            let stride: u64 = PD_FW_APP_CONFIG_METADATA_SIZE as u64;
            assert(k * stride <= 0xFFFF * 8) by (nonlinear_arith)
                requires
                    k <= 0xFFFF,
                    stride == 8,
            ;
            (app_size as u64) + ((PD_FW_IMAGE_ID_LENGTH + PD_FW_HEADER_METADATA_LENGTH
                + PD_FW_HEADER_BLOCK_LENGTH) as u64) + (k as u64) * stride
        },
    };
    let len: u64 = image.len() as u64;
    if offset + (PD_FW_DATA_BLOCK_METADATA_SIZE as u64) > len {
        return Err(PdError::InvalidParams);
    }
    let at: usize = offset as usize;
    let buf = vstd::slice::slice_subrange(image, at, at + PD_FW_DATA_BLOCK_METADATA_SIZE);
    let args = match TfudArgs::decode_from_slice(buf) {
        Ok(a) => a,
        Err(e) => {
            return Err(e);
        },
    };
    let start: usize = at + PD_FW_DATA_BLOCK_METADATA_SIZE;
    if (args.data_len as usize) > image.len() - start {
        return Err(PdError::InvalidParams);
    }
    Ok(BlockPlace { args, start, end: start + args.data_len as usize })
}

/// Whether an image holds its header block in full.
pub fn has_header_block(image: &[u8]) -> (r: bool)
    ensures
        r == (image@.len() >= PD_FW_HEADER_BLOCK_OFFSET + PD_FW_HEADER_BLOCK_LENGTH),
{
    image.len() >= PD_FW_HEADER_BLOCK_OFFSET + PD_FW_HEADER_BLOCK_LENGTH
}

} // verus!
