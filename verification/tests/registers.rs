use rust_gpu_driver_lab::mmio::{MmioError, MmioRegion};
use rust_gpu_driver_lab::registers::{command, control, status, GpuRegisterBlock, RegisterBlockError};

#[test]
fn too_small_register_map_is_rejected() {
    let mut storage = [0_u32; 2];
    assert_eq!(
        GpuRegisterBlock::from_slice(&mut storage).unwrap_err(),
        RegisterBlockError::RegionTooSmall { required: 3, actual: 2 }
    );
}

#[test]
fn control_is_read_write() {
    let mut storage = [0_u32; 3];
    let mut registers = GpuRegisterBlock::from_slice(&mut storage).unwrap();
    registers.write(control(), 0x1234).unwrap();
    assert_eq!(registers.read(control()), Ok(0x1234));
}

#[test]
fn status_is_readable() {
    let mut storage = [0_u32, 0xA5A5, 0_u32];
    let registers = GpuRegisterBlock::from_slice(&mut storage).unwrap();
    assert_eq!(registers.read(status()), Ok(0xA5A5));
}

#[test]
fn command_is_writable() {
    let mut storage = [0_u32; 3];
    {
        let mut registers = GpuRegisterBlock::from_slice(&mut storage).unwrap();
        registers.write(command(), 42).unwrap();
    }
    assert_eq!(storage[2], 42);
}

#[test]
fn register_operations_use_correct_offsets() {
    let mut storage = [0_u32; 3];
    {
        let mut registers = GpuRegisterBlock::from_slice(&mut storage).unwrap();
        registers.write(control(), 11).unwrap();
        registers.write(command(), 33).unwrap();
    }
    assert_eq!(storage, [11, 0, 33]);
}

#[test]
fn larger_region_is_accepted() {
    let mut storage = [0_u32; 8];
    let registers = GpuRegisterBlock::from_slice(&mut storage).unwrap();
    assert_eq!(registers.read(status()), Ok(0));
}

#[test]
fn mmio_errors_are_preserved() {
    let error = RegisterBlockError::from(MmioError::OutOfBounds { index: 5, register_count: 3 });
    assert_eq!(error, RegisterBlockError::Mmio(MmioError::OutOfBounds { index: 5, register_count: 3 }));
}

#[test]
fn block_from_small_region_is_rejected() {
    let mut storage = [0_u32; 2];
    let mmio = MmioRegion::from_slice(&mut storage).unwrap();
    assert_eq!(
        GpuRegisterBlock::from_mmio(mmio).unwrap_err(),
        RegisterBlockError::RegionTooSmall { required: 3, actual: 2 }
    );
    let mut storage = [7_u32; 3];
    let mmio = MmioRegion::from_slice(&mut storage).unwrap();
    let block = GpuRegisterBlock::from_mmio(mmio).unwrap();
    assert_eq!(block.read(control()), Ok(7));
}
