# ble_net_mngmt

A BLE peripheral that reports, to whoever reads its GATT characteristic, the
wired network interfaces of the host and their IPv4 addresses as NetworkManager
knows them.

- `src/` is the verified library (Verus):
  - `network/nm_device.rs`: NetworkManager names, device kinds and states, the
    null object path, the `AddressData` lookup and SSID text.
  - `network/collect.rs`: `Collector`, the walk over the devices that gathers
    the wired interfaces, with the proof of what a whole walk reports.
  - `network/example.rs`: `NetifScan`, the full scan that builds one record per
    device, with the proof of what a whole scan reports.
  - `error.rs`: `AppError` and the JSON text of a failed step.
- `app/` is the program around it: the D-Bus reads (zbus), JSON output (serde),
  and the Bluetooth server (bluer).
- `tests/` runs the library on concrete values.
