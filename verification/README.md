# tcpkali2

A load generator for TCP and WebSocket servers. It opens connections at a given
rate, sends a message again and again, with or without waiting for replies, and
reports request rates, traffic and latencies.

`src/` is a library of everything that the program decides and computes, with
contracts that Verus proves. It does no input or output: it is told what
happened and when, and answers with what to do next. `app/` is the program
around it, which reads the command line, talks to the network and prints.

| Module | What it holds |
| --- | --- |
| `command` | arguments, the configuration and its validation |
| `utils` | durations, rates, escape sequences, the wall clock |
| `message` | the bytes of messages, random payloads |
| `worker`, `worker_laws` | what a connection does next, and what holds of every connection |
| `reader`, `sent_times` | replies of pipelined connections and the messages they belong to |
| `runner`, `printer` | the course of a test and the line that shows it |
| `stats`, `latency` | the counters and the histogram of latencies |
| `report`, `csv_export`, `notice` | results, the CSV file, and the texts of notices |
| `text`, `time`, `error` | text primitives, spans of time, errors |

Times on the monotonic clock are nanoseconds from a start that the program
picks. Traffic is worked out in whole hundredths of a megabit per second. The
other quotients are floating point, so the library says what is to be divided
and the program divides.

What the library relies on without proof stands in doc comments that start with
"Trusted:". It concerns `bytes`, `rand`, `hdrhistogram`, `crossbeam-deque`,
`tungstenite` and a few functions of `std`.
