# anda_bot

A bot account on Twitter that speaks for a character of the Anda agent engine. It answers its
mentions, engages with its home timeline and now and then writes a tweet of its own.

The decisions are a library verified with Verus, in `src/`. Each task is a chain of steps: a step
says what to do next, the program around it does that, and hands the result to the function named
in the step's documentation, which returns the next step.

| module       | what it decides                                                         |
|--------------|-------------------------------------------------------------------------|
| `daemon`     | who the bot is                                                          |
| `round`      | the rounds: mentions, home timeline, own tweet, rests, cancelling       |
| `mention`    | which mentions are answered, and when one counts as dealt with          |
| `thread`     | how far a conversation is followed                                      |
| `timeline`   | which tweets of the home timeline are engaged with, and what is stored  |
| `engage`     | like, then quote or reply                                               |
| `post`       | tweets of the bot's own                                                 |
| `answer`     | what is published of a model's answer                                   |
| `completion` | requests to the model in the engine's form                              |
| `tweet`      | tweets, and how a timeline entry in JSON is read                        |
| `seen`       | the ids of the tweets dealt with                                        |
| `text`       | quotes, handles, prompts, chat lines                                    |
| `chance`     | random rests and draws                                                  |

Functions whose names begin with `law_` state what holds across several steps.

`Cargo.toml` holds `idna_adapter`, `proptest` and `quinn-proto` to older versions. No code here calls
them: they come with the engine, and these versions need fewer crates than the newest ones.

`app/` makes the network, storage and model calls. It reaches Twitter through the crate
`agent-twitter-client`, which brings many crates of its own and which the library does without, so
`Cargo.toml` does not list it; `app/` builds only where it is added.

`tests/` runs the library on examples.
