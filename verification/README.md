# usb_bus

A UEFI USB bus driver whose logic is verified with Verus.

`src/` holds the driver's logic: parsing descriptors, device paths, hub and port
handling, enumeration, configurations and interfaces, the USB I/O protocol, and
starting and stopping the bus. An operation that needs the host controller or the
firmware is a function from its current state and the last reply to its next step.
A step is a piece of work for the outside, a call of another operation, or the
result. `task.rs` keeps the stack of running operations.

| module | what it holds |
| --- | --- |
| `status` | status codes |
| `search` | finding the first match in a sequence |
| `usb_2_host_controller`, `device_path` | values of the two protocols |
| `usb_bus_defs` | the bus, its devices and interfaces, and their invariant |
| `task` | steps, replies and the stack of running operations |
| `usb_desc` | parsing configuration, interface and endpoint descriptors |
| `usb_control` | standard control requests and reading descriptors |
| `usb_interface`, `interface_life`, `usb_config` | settings, interfaces, configurations |
| `usb_hub`, `hub_port`, `hub_life` | hub requests, port resets, starting and stopping hubs |
| `usb_enumer` | finding, adding and removing devices |
| `removal` | what the removal of a device leaves behind |
| `usb_io_impl`, `usb_io_call` | the USB I/O protocol, and calls of it at the priority of the bus |
| `usb_utility`, `usb_wanted` | device paths and the devices that were asked for |
| `connecting` | which handles are connected when more is wanted |
| `driver` | supporting, starting and stopping a controller |

`tests/` runs the library against a simulated controller. `app/` is ordinary Rust:
the layouts of the firmware protocols, the work that the steps ask for, and the
driver binding.
