//! The cache of host settings: one slot per setting, each entry trusted
//! for a short time after it was fetched.
//!
//! Time is a count of milliseconds on a clock that does not go back. The
//! functions whose name ends in `_at` take the time as an argument; the
//! others read the clock that the state was made with.

use vstd::prelude::*;

verus! {

/// `std::time::Instant`, a point on the monotonic clock. It is carried
/// through; nothing is known of what it holds.
#[verifier::external_type_specification]
#[verifier::external_body]
pub struct ExInstant(std::time::Instant);

/// `std::time::Instant::now` reads the clock. Nothing is claimed of the
/// instant that it returns.
pub assume_specification[ std::time::Instant::now ]() -> (r: std::time::Instant)
;

/// `std::time::Instant::elapsed` gives the time that has passed since an
/// instant. Nothing is claimed of the span that it returns.
pub assume_specification[ std::time::Instant::elapsed ](origin: &std::time::Instant) -> (r:
    std::time::Duration)
;

/// `std::time::Duration::as_millis` gives a span in whole milliseconds.
/// Nothing is claimed of the number that it returns.
pub assume_specification[ std::time::Duration::as_millis ](span: &std::time::Duration) -> (r: u128)
;

/// For how many milliseconds a cached value is trusted.
pub const CACHE_DURATION_MS: u64 = 500;

/// A cached value and the time at which it was fetched, as contracts see it.
pub struct Entry<T> {
    pub value: T,
    pub fetched_at: u64,
}

/// What a slot gives at time `now`: its value while the entry is fresh.
///
/// An entry is fresh while less than the cache duration has passed since
/// it was fetched. A time before the fetch counts as no time passed.
pub open spec fn fresh<T>(slot: Option<Entry<T>>, now: u64) -> Option<T> {
    match slot {
        Some(entry) => if now - entry.fetched_at < CACHE_DURATION_MS {
            Some(entry.value)
        } else {
            None
        },
        None => None,
    }
}

/// The six slots of the cache, as contracts see them.
pub struct CacheView {
    pub volume: Option<Entry<u8>>,
    pub muted: Option<Entry<bool>>,
    pub brightness: Option<Entry<u8>>,
    pub wifi_enabled: Option<Entry<bool>>,
    pub bluetooth_enabled: Option<Entry<bool>>,
    pub night_light_enabled: Option<Entry<bool>>,
}

impl CacheView {
    /// The cache with every slot empty.
    pub open spec fn empty() -> CacheView {
        CacheView {
            volume: None,
            muted: None,
            brightness: None,
            wifi_enabled: None,
            bluetooth_enabled: None,
            night_light_enabled: None,
        }
    }

    /// The cache after `value` was stored as the volume at time `now`.
    pub open spec fn with_volume(self, value: u8, now: u64) -> CacheView {
        CacheView { volume: Some(Entry { value, fetched_at: now }), ..self }
    }

    /// The cache after `value` was stored as the mute state at time `now`.
    pub open spec fn with_muted(self, value: bool, now: u64) -> CacheView {
        CacheView { muted: Some(Entry { value, fetched_at: now }), ..self }
    }

    /// The cache after `value` was stored as the brightness at time `now`.
    pub open spec fn with_brightness(self, value: u8, now: u64) -> CacheView {
        CacheView { brightness: Some(Entry { value, fetched_at: now }), ..self }
    }

    /// The cache after `value` was stored as the WiFi state at time `now`.
    pub open spec fn with_wifi(self, value: bool, now: u64) -> CacheView {
        CacheView { wifi_enabled: Some(Entry { value, fetched_at: now }), ..self }
    }

    /// The cache after `value` was stored as the Bluetooth state at time `now`.
    pub open spec fn with_bluetooth(self, value: bool, now: u64) -> CacheView {
        CacheView { bluetooth_enabled: Some(Entry { value, fetched_at: now }), ..self }
    }

    /// The cache after `value` was stored as the night-light state at time `now`.
    pub open spec fn with_night_light(self, value: bool, now: u64) -> CacheView {
        CacheView { night_light_enabled: Some(Entry { value, fetched_at: now }), ..self }
    }
}

/// A value with the time at which it was fetched.
#[derive(Debug, Clone, Copy)]
pub struct CacheEntry<T> {
    value: T,
    timestamp: u64,
}

impl<T> View for CacheEntry<T> {
    type V = Entry<T>;

    closed spec fn view(&self) -> Entry<T> {
        Entry { value: self.value, fetched_at: self.timestamp }
    }
}

/// A slot as contracts see it.
pub open spec fn slot_view<T>(slot: Option<CacheEntry<T>>) -> Option<Entry<T>> {
    match slot {
        Some(entry) => Some(entry@),
        None => None,
    }
}

impl<T: Copy> CacheEntry<T> {
    /// An entry for `value`, fetched at time `now`.
    pub fn new(value: T, now: u64) -> (r: CacheEntry<T>)
        ensures
            r@ == (Entry { value, fetched_at: now }),
    {
        CacheEntry { value, timestamp: now }
    }

    /// Whether the entry is still fresh at time `now`.
    pub fn is_valid(&self, now: u64) -> (r: bool)
        ensures
            r == (now - self@.fetched_at < CACHE_DURATION_MS),
    {
        now < self.timestamp || now - self.timestamp < CACHE_DURATION_MS
    }

    /// The value, while the entry is fresh at time `now`.
    pub fn get(&self, now: u64) -> (r: Option<T>)
        ensures
            r == fresh(Some(self@), now),
    {
        if self.is_valid(now) {
            Some(self.value)
        } else {
            None
        }
    }
}

fn read_slot<T: Copy>(slot: &Option<CacheEntry<T>>, now: u64) -> (r: Option<T>)
    ensures
        r == fresh(slot_view(*slot), now),
{
    match slot {
        Some(entry) => entry.get(now),
        None => None,
    }
}

/// The cached state of the host's settings.
pub struct AppState {
    origin: std::time::Instant,
    volume: Option<CacheEntry<u8>>,
    muted: Option<CacheEntry<bool>>,
    brightness: Option<CacheEntry<u8>>,
    wifi_enabled: Option<CacheEntry<bool>>,
    bluetooth_enabled: Option<CacheEntry<bool>>,
    night_light_enabled: Option<CacheEntry<bool>>,
}

impl View for AppState {
    type V = CacheView;

    closed spec fn view(&self) -> CacheView {
        CacheView {
            volume: slot_view(self.volume),
            muted: slot_view(self.muted),
            brightness: slot_view(self.brightness),
            wifi_enabled: slot_view(self.wifi_enabled),
            bluetooth_enabled: slot_view(self.bluetooth_enabled),
            night_light_enabled: slot_view(self.night_light_enabled),
        }
    }
}

impl AppState {
    /// A cache with every slot empty, and a clock that starts now.
    pub fn new() -> (r: AppState)
        ensures
            r@ == CacheView::empty(),
    {
        AppState {
            origin: std::time::Instant::now(),
            volume: None,
            muted: None,
            brightness: None,
            wifi_enabled: None,
            bluetooth_enabled: None,
            night_light_enabled: None,
        }
    }

    /// The milliseconds that have passed on this state's clock.
    pub(crate) fn now(&self) -> (r: u64) {
        let span = self.origin.elapsed();
        clock_reading(span.as_millis())
    }

    /// The cached volume, while fresh at time `now`.
    pub fn get_cached_volume_at(&self, now: u64) -> (r: Option<u8>)
        ensures
            r == fresh(self@.volume, now),
    {
        read_slot(&self.volume, now)
    }

    /// The cached volume, while fresh at the time of the call.
    pub fn get_cached_volume(&self) -> (r: Option<u8>)
        ensures
            exists|now: u64| r == fresh(self@.volume, now),
    {
        let now = self.now();
        self.get_cached_volume_at(now)
    }

    /// Stores `value` as the volume, fetched at time `now`.
    pub fn set_cached_volume_at(&mut self, value: u8, now: u64)
        ensures
            final(self)@ == old(self)@.with_volume(value, now),
    {
        self.volume = Some(CacheEntry::new(value, now));
    }

    /// Stores `value` as the volume, fetched at the time of the call.
    pub fn set_cached_volume(&mut self, value: u8)
        ensures
            exists|now: u64| final(self)@ == old(self)@.with_volume(value, now),
    {
        let now = self.now();
        self.set_cached_volume_at(value, now);
    }

    /// The cached mute state, while fresh at time `now`.
    pub fn get_cached_muted_at(&self, now: u64) -> (r: Option<bool>)
        ensures
            r == fresh(self@.muted, now),
    {
        read_slot(&self.muted, now)
    }

    /// The cached mute state, while fresh at the time of the call.
    pub fn get_cached_muted(&self) -> (r: Option<bool>)
        ensures
            exists|now: u64| r == fresh(self@.muted, now),
    {
        let now = self.now();
        self.get_cached_muted_at(now)
    }

    /// Stores `value` as the mute state, fetched at time `now`.
    pub fn set_cached_muted_at(&mut self, value: bool, now: u64)
        ensures
            final(self)@ == old(self)@.with_muted(value, now),
    {
        self.muted = Some(CacheEntry::new(value, now));
    }

    /// Stores `value` as the mute state, fetched at the time of the call.
    pub fn set_cached_muted(&mut self, value: bool)
        ensures
            exists|now: u64| final(self)@ == old(self)@.with_muted(value, now),
    {
        let now = self.now();
        self.set_cached_muted_at(value, now);
    }

    /// The cached brightness, while fresh at time `now`.
    pub fn get_cached_brightness_at(&self, now: u64) -> (r: Option<u8>)
        ensures
            r == fresh(self@.brightness, now),
    {
        read_slot(&self.brightness, now)
    }

    /// The cached brightness, while fresh at the time of the call.
    pub fn get_cached_brightness(&self) -> (r: Option<u8>)
        ensures
            exists|now: u64| r == fresh(self@.brightness, now),
    {
        let now = self.now();
        self.get_cached_brightness_at(now)
    }

    /// Stores `value` as the brightness, fetched at time `now`.
    pub fn set_cached_brightness_at(&mut self, value: u8, now: u64)
        ensures
            final(self)@ == old(self)@.with_brightness(value, now),
    {
        self.brightness = Some(CacheEntry::new(value, now));
    }

    /// Stores `value` as the brightness, fetched at the time of the call.
    pub fn set_cached_brightness(&mut self, value: u8)
        ensures
            exists|now: u64| final(self)@ == old(self)@.with_brightness(value, now),
    {
        let now = self.now();
        self.set_cached_brightness_at(value, now);
    }

    /// The cached WiFi state, while fresh at time `now`.
    pub fn get_cached_wifi_at(&self, now: u64) -> (r: Option<bool>)
        ensures
            r == fresh(self@.wifi_enabled, now),
    {
        read_slot(&self.wifi_enabled, now)
    }

    /// The cached WiFi state, while fresh at the time of the call.
    pub fn get_cached_wifi(&self) -> (r: Option<bool>)
        ensures
            exists|now: u64| r == fresh(self@.wifi_enabled, now),
    {
        let now = self.now();
        self.get_cached_wifi_at(now)
    }

    /// Stores `value` as the WiFi state, fetched at time `now`.
    pub fn set_cached_wifi_at(&mut self, value: bool, now: u64)
        ensures
            final(self)@ == old(self)@.with_wifi(value, now),
    {
        self.wifi_enabled = Some(CacheEntry::new(value, now));
    }

    /// Stores `value` as the WiFi state, fetched at the time of the call.
    pub fn set_cached_wifi(&mut self, value: bool)
        ensures
            exists|now: u64| final(self)@ == old(self)@.with_wifi(value, now),
    {
        let now = self.now();
        self.set_cached_wifi_at(value, now);
    }

    /// The cached Bluetooth state, while fresh at time `now`.
    pub fn get_cached_bluetooth_at(&self, now: u64) -> (r: Option<bool>)
        ensures
            r == fresh(self@.bluetooth_enabled, now),
    {
        read_slot(&self.bluetooth_enabled, now)
    }

    /// The cached Bluetooth state, while fresh at the time of the call.
    pub fn get_cached_bluetooth(&self) -> (r: Option<bool>)
        ensures
            exists|now: u64| r == fresh(self@.bluetooth_enabled, now),
    {
        let now = self.now();
        self.get_cached_bluetooth_at(now)
    }

    /// Stores `value` as the Bluetooth state, fetched at time `now`.
    pub fn set_cached_bluetooth_at(&mut self, value: bool, now: u64)
        ensures
            final(self)@ == old(self)@.with_bluetooth(value, now),
    {
        self.bluetooth_enabled = Some(CacheEntry::new(value, now));
    }

    /// Stores `value` as the Bluetooth state, fetched at the time of the call.
    pub fn set_cached_bluetooth(&mut self, value: bool)
        ensures
            exists|now: u64| final(self)@ == old(self)@.with_bluetooth(value, now),
    {
        let now = self.now();
        self.set_cached_bluetooth_at(value, now);
    }

    /// The cached night-light state, while fresh at time `now`.
    pub fn get_cached_night_light_at(&self, now: u64) -> (r: Option<bool>)
        ensures
            r == fresh(self@.night_light_enabled, now),
    {
        read_slot(&self.night_light_enabled, now)
    }

    /// The cached night-light state, while fresh at the time of the call.
    pub fn get_cached_night_light(&self) -> (r: Option<bool>)
        ensures
            exists|now: u64| r == fresh(self@.night_light_enabled, now),
    {
        let now = self.now();
        self.get_cached_night_light_at(now)
    }

    /// Stores `value` as the night-light state, fetched at time `now`.
    pub fn set_cached_night_light_at(&mut self, value: bool, now: u64)
        ensures
            final(self)@ == old(self)@.with_night_light(value, now),
    {
        self.night_light_enabled = Some(CacheEntry::new(value, now));
    }

    /// Stores `value` as the night-light state, fetched at the time of the call.
    pub fn set_cached_night_light(&mut self, value: bool)
        ensures
            exists|now: u64| final(self)@ == old(self)@.with_night_light(value, now),
    {
        let now = self.now();
        self.set_cached_night_light_at(value, now);
    }

    /// Empties every slot.
    pub fn invalidate_all(&mut self)
        ensures
            final(self)@ == CacheView::empty(),
    {
        self.volume = None;
        self.muted = None;
        self.brightness = None;
        self.wifi_enabled = None;
        self.bluetooth_enabled = None;
        self.night_light_enabled = None;
    }
}

/// The reading of a clock that has counted `millis` milliseconds: that
/// count, or the largest reading where the count is beyond it.
pub fn clock_reading(millis: u128) -> (r: u64)
    ensures
        r == (if millis > u64::MAX {
            u64::MAX as int
        } else {
            millis as int
        }),
{
    if millis > 0xffff_ffff_ffff_ffff {
        u64::MAX
    } else {
        millis as u64
    }
}

impl Default for AppState {
    fn default() -> (r: AppState)
        ensures
            r@ == CacheView::empty(),
    {
        AppState::new()
    }
}

/// A value that was stored is read back while less than the cache
/// duration has passed, and is a miss from then on. This holds of each
/// of the six settings.
pub proof fn law_set_then_get(cache: CacheView, level: u8, flag: bool, stored: u64, read: u64)
    ensures
        fresh(cache.with_volume(level, stored).volume, read) == (if read - stored
            < CACHE_DURATION_MS {
            Some(level)
        } else {
            None
        }),
        fresh(cache.with_brightness(level, stored).brightness, read) == (if read - stored
            < CACHE_DURATION_MS {
            Some(level)
        } else {
            None
        }),
        fresh(cache.with_muted(flag, stored).muted, read) == (if read - stored
            < CACHE_DURATION_MS {
            Some(flag)
        } else {
            None
        }),
        fresh(cache.with_wifi(flag, stored).wifi_enabled, read) == (if read - stored
            < CACHE_DURATION_MS {
            Some(flag)
        } else {
            None
        }),
        fresh(cache.with_bluetooth(flag, stored).bluetooth_enabled, read) == (if read - stored
            < CACHE_DURATION_MS {
            Some(flag)
        } else {
            None
        }),
        fresh(cache.with_night_light(flag, stored).night_light_enabled, read) == (if read
            - stored < CACHE_DURATION_MS {
            Some(flag)
        } else {
            None
        }),
{
}

/// An emptied cache misses on every setting, whatever the time.
pub proof fn law_empty_cache_misses(now: u64)
    ensures
        fresh(CacheView::empty().volume, now) is None,
        fresh(CacheView::empty().muted, now) is None,
        fresh(CacheView::empty().brightness, now) is None,
        fresh(CacheView::empty().wifi_enabled, now) is None,
        fresh(CacheView::empty().bluetooth_enabled, now) is None,
        fresh(CacheView::empty().night_light_enabled, now) is None,
{
}

/// Storing one setting leaves every other slot as it was: no slot is
/// read or replaced together with another.
pub proof fn law_slots_are_independent(cache: CacheView, level: u8, flag: bool, now: u64)
    ensures
        cache.with_volume(level, now).muted == cache.muted,
        cache.with_volume(level, now).brightness == cache.brightness,
        cache.with_volume(level, now).wifi_enabled == cache.wifi_enabled,
        cache.with_volume(level, now).bluetooth_enabled == cache.bluetooth_enabled,
        cache.with_volume(level, now).night_light_enabled == cache.night_light_enabled,
        cache.with_muted(flag, now).volume == cache.volume,
        cache.with_muted(flag, now).brightness == cache.brightness,
        cache.with_muted(flag, now).wifi_enabled == cache.wifi_enabled,
        cache.with_muted(flag, now).bluetooth_enabled == cache.bluetooth_enabled,
        cache.with_muted(flag, now).night_light_enabled == cache.night_light_enabled,
        cache.with_brightness(level, now).volume == cache.volume,
        cache.with_brightness(level, now).muted == cache.muted,
        cache.with_brightness(level, now).wifi_enabled == cache.wifi_enabled,
        cache.with_brightness(level, now).bluetooth_enabled == cache.bluetooth_enabled,
        cache.with_brightness(level, now).night_light_enabled == cache.night_light_enabled,
        cache.with_wifi(flag, now).volume == cache.volume,
        cache.with_wifi(flag, now).muted == cache.muted,
        cache.with_wifi(flag, now).brightness == cache.brightness,
        cache.with_wifi(flag, now).bluetooth_enabled == cache.bluetooth_enabled,
        cache.with_wifi(flag, now).night_light_enabled == cache.night_light_enabled,
        cache.with_bluetooth(flag, now).volume == cache.volume,
        cache.with_bluetooth(flag, now).muted == cache.muted,
        cache.with_bluetooth(flag, now).brightness == cache.brightness,
        cache.with_bluetooth(flag, now).wifi_enabled == cache.wifi_enabled,
        cache.with_bluetooth(flag, now).night_light_enabled == cache.night_light_enabled,
        cache.with_night_light(flag, now).volume == cache.volume,
        cache.with_night_light(flag, now).muted == cache.muted,
        cache.with_night_light(flag, now).brightness == cache.brightness,
        cache.with_night_light(flag, now).wifi_enabled == cache.wifi_enabled,
        cache.with_night_light(flag, now).bluetooth_enabled == cache.bluetooth_enabled,
{
}

} // verus!
