# raylar_services

The services of a field recorder, written in Verus: each function states in its
contract what it does, and Verus proves that it does it.

## The library, `src/`

| module | what it holds |
| --- | --- |
| `arith`, `order`, `text`, `clock` | integers, sorting, bounded text, ticks |
| `time` | the clock: UTC anchors, oscillator calibration, holdover, pulse reacquisition |
| `location` | the median position of the latest usable fixes |
| `power` | power source, battery charge and health from measured voltages |
| `sensors` | schedules, readings, derived readings, rules and events |
| `storage` | streams on a block device: paths, tickets, buffered blocks |
| `logging` | the bounded queue of messages and the lines it becomes |
| `recorder` | WAV headers and the rotation of recordings |
| `versioning` | what a device knows about itself |
| `firmware` | the decisions of the programs: logs, card power, recording, forwarding, CPU time |

Where a service keeps state, a `model` (or a view of the service) says what the
state is, contracts relate the view before and after a call, and the functions
named `law_*` prove what holds over several calls.

What the library takes on trust is marked `external_body` or
`external_type_specification`: the unit conversions of `embassy-time` (in
`clock`), the fixed-capacity `String` of `heapless` (in `text`) and the `Debug`
notation of a string slice (in `firmware::versions`).

## Around it

`tests/` runs the library. `app/` is the asynchronous side: it waits, performs
the file operations and the sensor transfers that the library asks for, and hands
the results back; angles are computed there in floating point.
