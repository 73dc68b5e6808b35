//! Drivers as the kernel keeps them, and the move of the device tree.

use vstd::prelude::*;
use vstd::slice::slice_subrange;
use std::sync::Arc;

verus! {

/// `spin::relax::Spin`, the waiting strategy of the lock below.
#[verifier::external_type_specification]
#[verifier::external_body]
pub struct ExSpin(spin::relax::Spin);

/// `spin::rwlock::RwLock`, a lock for many readers or one writer. A writer
/// changes what it guards unseen, so no contract speaks of what it holds.
#[verifier::external_type_specification]
#[verifier::external_body]
#[verifier::reject_recursive_types(T)]
#[verifier::reject_recursive_types(R)]
pub struct ExRwLock<T: ?Sized, R>(spin::rwlock::RwLock<T, R>);

/// `spin::rwlock::RwLockReadGuard`, shared access for as long as it lives.
#[verifier::external_type_specification]
#[verifier::external_body]
#[verifier::reject_recursive_types(T)]
#[verifier::reject_recursive_types(R)]
pub struct ExRwLockReadGuard<'a, T: 'a + ?Sized, R>(spin::rwlock::RwLockReadGuard<'a, T, R>);

/// `spin::rwlock::RwLockWriteGuard`, exclusive access for as long as it
/// lives.
#[verifier::external_type_specification]
#[verifier::external_body]
#[verifier::reject_recursive_types(T)]
#[verifier::reject_recursive_types(R)]
pub struct ExRwLockWriteGuard<'a, T: 'a + ?Sized, R>(spin::rwlock::RwLockWriteGuard<'a, T, R>);

/// What a driver drives. `U` is the type of a serial port's driver, `I`
/// that of an interrupt controller's.
pub enum DriverKind<U, I> {
    Uart(U),
    Interupt(I),
    Spi,
    I2c,
}

/// A driver and its name.
pub struct Driver<U, I> {
    pub name: String,
    pub kind: DriverKind<U, I>,
}

/// A driver that several owners share under a lock.
#[verifier::reject_recursive_types(U)]
#[verifier::reject_recursive_types(I)]
pub struct DriverLocked<U, I> {
    pub inner: Arc<spin::rwlock::RwLock<Driver<U, I>, spin::relax::Spin>>,
}

impl<U, I> Clone for DriverLocked<U, I> {
    /// Another owner of the same driver.
    fn clone(&self) -> (r: Self)
        ensures
            r.inner == self.inner,
    {
        DriverLocked { inner: self.inner.clone() }
    }
}

/// `spin::rwlock::RwLock::new` makes an unlocked lock around `driver`.
#[verifier::external_body]
fn lock_new<U, I>(driver: Driver<U, I>) -> spin::rwlock::RwLock<Driver<U, I>, spin::relax::Spin> {
    spin::rwlock::RwLock::new(driver)
}

/// `spin::rwlock::RwLock::read` waits until no writer holds the lock and
/// returns shared access.
#[verifier::external_body]
fn lock_read<'a, U, I>(
    lock: &'a spin::rwlock::RwLock<Driver<U, I>, spin::relax::Spin>,
) -> spin::rwlock::RwLockReadGuard<'a, Driver<U, I>, spin::relax::Spin> {
    lock.read()
}

/// `spin::rwlock::RwLock::write` waits until nobody else holds the lock and
/// returns exclusive access.
#[verifier::external_body]
fn lock_write<'a, U, I>(
    lock: &'a spin::rwlock::RwLock<Driver<U, I>, spin::relax::Spin>,
) -> spin::rwlock::RwLockWriteGuard<'a, Driver<U, I>, spin::relax::Spin> {
    lock.write()
}

/// The `Deref` of `spin::rwlock::RwLockReadGuard`: the driver behind it.
#[verifier::external_body]
fn guarded<'a, 'b, U, I>(
    guard: &'b spin::rwlock::RwLockReadGuard<'a, Driver<U, I>, spin::relax::Spin>,
) -> &'b Driver<U, I> {
    guard
}

impl<U, I> DriverLocked<U, I> {
    /// A new driver under a lock of its own.
    pub fn new(name: String, kind: DriverKind<U, I>) -> Self {
        DriverLocked::share(lock_new(Driver::new(name, kind)))
    }

    /// Exclusive access to the driver. Waits while anybody else holds it.
    pub fn write(&self) -> spin::rwlock::RwLockWriteGuard<'_, Driver<U, I>, spin::relax::Spin> {
        lock_write(&self.inner)
    }

    /// Shared access to the driver. Waits while a writer holds it.
    pub fn read(&self) -> spin::rwlock::RwLockReadGuard<'_, Driver<U, I>, spin::relax::Spin> {
        lock_read(&self.inner)
    }

    /// The driver's name at the time of the call.
    pub fn name(&self) -> String {
        let guard = self.read();
        guarded(&guard).name()
    }
}

impl<U, I> DriverLocked<U, I> {
    /// The first owner of the driver behind `lock`.
    pub fn share(lock: spin::rwlock::RwLock<Driver<U, I>, spin::relax::Spin>) -> (r: Self)
        ensures
            *r.inner == lock,
    {
        DriverLocked { inner: Arc::new(lock) }
    }
}

impl<U, I> Driver<U, I> {
    /// The driver of this name and kind: what `DriverLocked::new` puts under
    /// its lock.
    pub fn new(name: String, kind: DriverKind<U, I>) -> (r: Self)
        ensures
            r.name == name,
            r.kind == kind,
    {
        Driver { name, kind }
    }

    /// A copy of the driver's name: what `DriverLocked::name` returns of the
    /// driver that it finds behind the lock.
    pub fn name(&self) -> (r: String)
        ensures
            r@ == self.name@,
    {
        self.name.clone()
    }
}

/// The big-endian number in the four bytes of `data` from `at`.
pub open spec fn be32(data: Seq<u8>, at: int) -> int {
    data[at] * 0x100_0000 + data[at + 1] * 0x1_0000 + data[at + 2] * 0x100 + data[at + 3]
}

/// The size that a device tree blob states for itself, where `data` starts
/// with a whole header that carries the magic number and holds as many
/// bytes as the header says.
pub open spec fn dtb_total_size(data: Seq<u8>) -> Option<usize> {
    if data.len() >= 40 && be32(data, 0) == 0xd00d_feed && be32(data, 4) <= data.len() {
        Some(be32(data, 4) as usize)
    } else {
        None
    }
}

/// `flat_device_tree::Fdt::new` reads the ten big-endian words of the
/// header and accepts the blob if the first is `0xd00dfeed` and the buffer
/// is at least as long as the second, the total size, which
/// `Fdt::total_size` then returns.
#[verifier::external_body]
fn fdt_total_size(data: &[u8]) -> (r: Option<usize>)
    ensures
        r == dtb_total_size(data@),
{
    match flat_device_tree::Fdt::new(data) {
        Ok(fdt) => Some(fdt.total_size()),
        Err(_) => None,
    }
}

/// Moves the device tree that `src` starts with to `dst`: afterwards `dst`
/// holds the blob's bytes, as many as its header states, and their number
/// is returned. Where `src` does not start with a device tree, `dst` stays
/// as it is.
pub fn move_dtb(src: &[u8], dst: &mut Vec<u8>) -> (r: Option<usize>)
    ensures
        r == dtb_total_size(src@),
        r matches Some(size) ==> final(dst)@ == src@.take(size as int),
        r is None ==> final(dst)@ == old(dst)@,
{
    let size = fdt_total_size(src)?;
    let blob = slice_subrange(src, 0, size);
    dst.clear();
    dst.extend_from_slice(blob);
    assert(dst@ == src@.take(size as int));
    Some(size)
}

} // verus!
